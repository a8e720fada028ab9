//! The benchmark schedule: which predefined benchmark runs when, how many
//! frames are warm-up frames and how many are measured.

use vstd::prelude::*;

use crate::scenes::{ParamId, SceneId};

verus! {

/// Frames rendered before measuring starts, unless configured otherwise.
pub const BENCH_WARMUP_SAMPLES: usize = 3;

/// Frames measured per benchmark, unless configured otherwise.
pub const BENCH_MEASURED_SAMPLES: usize = 15;

/// Where the benchmark harness stands.
#[derive(Debug, Clone, Copy, PartialEq, Eq, Structural)]
pub enum Phase {
    Idle,
    /// The benchmark with this index is next; nothing of it has run yet.
    PendingBench(usize),
    /// The benchmark with index `idx` is running.
    Running { idx: usize, warmup_remaining: usize, samples: usize },
    Complete,
}

/// What the caller does for one tick of the harness.
#[derive(Debug, Clone, Copy, PartialEq, Eq, Structural)]
pub enum TickStep {
    /// Nothing runs.
    Idle,
    /// Set up benchmark `idx`, render its first frame and start the clock.
    Started { idx: usize },
    /// Render a frame of benchmark `idx`; its time does not count.
    Warmup { idx: usize },
    /// Render a frame of benchmark `idx` and add its time to the total.
    Measured { idx: usize },
    /// Render the last frame of benchmark `idx`, add its time when `timed`
    /// (it is not when the frame was a warm-up frame), and report the
    /// benchmark as done over `iterations` measured frames. `next` is the
    /// benchmark that runs next, or `None` when the run is over.
    Finished { idx: usize, iterations: usize, next: Option<usize>, timed: bool },
}

/// What a request to start a run is answered.
#[derive(Debug, Clone, Copy, PartialEq, Eq, Structural)]
pub enum StartDecision {
    /// Nothing starts: a run is already on, nothing is selected, or no
    /// viewport can be used.
    Refuse,
    /// Nothing starts: the benchmarks must be calibrated first.
    NeedsCalibration,
    /// The run starts at this viewport.
    Start { width: u32, height: u32 },
}

/// The answer to a request to start the selected benchmarks: a run that is
/// on is left alone; without a calibration the user is asked for one; an
/// empty selection starts nothing; otherwise the run starts at the
/// configured viewport when both its sides are set, else at the current
/// one.
pub open spec fn start_decision(
    running: bool,
    calibrated: bool,
    selected_len: nat,
    configured: (u32, u32),
    current: (u32, u32),
) -> StartDecision {
    if running {
        StartDecision::Refuse
    } else if !calibrated {
        StartDecision::NeedsCalibration
    } else if selected_len == 0 {
        StartDecision::Refuse
    } else if configured.0 > 0 && configured.1 > 0 {
        StartDecision::Start { width: configured.0, height: configured.1 }
    } else {
        StartDecision::Start { width: current.0, height: current.1 }
    }
}

/// Decides whether a run of the selected benchmarks starts, and at which
/// viewport.
pub fn decide_start(
    running: bool,
    calibrated: bool,
    selected_len: usize,
    configured: (u32, u32),
    current: (u32, u32),
) -> (r: StartDecision)
    ensures
        r == start_decision(running, calibrated, selected_len as nat, configured, current),
{
    if running {
        StartDecision::Refuse
    } else if !calibrated {
        StartDecision::NeedsCalibration
    } else if selected_len == 0 {
        StartDecision::Refuse
    } else if configured.0 > 0 && configured.1 > 0 {
        StartDecision::Start { width: configured.0, height: configured.1 }
    } else {
        StartDecision::Start { width: current.0, height: current.1 }
    }
}

/// The harness as a mathematical value.
pub struct HarnessView {
    pub phase: Phase,
    pub preset: u32,
    pub run_order: Seq<usize>,
    pub run_pos: nat,
    pub warmup_samples: usize,
    pub measured_samples: usize,
}

impl HarnessView {
    /// The phase agrees with the position in the run order, and a running
    /// benchmark counts its measured frames only once its warm-up is over.
    pub open spec fn wf(self) -> bool {
        match self.phase {
            Phase::PendingBench(i) => self.run_pos < self.run_order.len() && i
                == self.run_order[self.run_pos as int],
            Phase::Running { idx, warmup_remaining, samples } => {
                &&& self.run_pos < self.run_order.len()
                &&& idx == self.run_order[self.run_pos as int]
                &&& samples < usize::MAX
                &&& samples > 0 ==> warmup_remaining == 0
            },
            _ => true,
        }
    }

    pub open spec fn is_running(self) -> bool {
        !(self.phase is Idle || self.phase is Complete)
    }

    pub open spec fn current_bench_idx(self) -> Option<usize> {
        match self.phase {
            Phase::PendingBench(i) => Some(i),
            Phase::Running { idx, .. } => Some(idx),
            _ => None,
        }
    }

    /// Starting a run of the selected benchmarks, in order.
    pub open spec fn start(self, selected: Seq<usize>) -> HarnessView {
        HarnessView {
            phase: if selected.len() == 0 {
                Phase::Complete
            } else {
                Phase::PendingBench(selected[0])
            },
            run_order: selected,
            run_pos: 0,
            ..self
        }
    }

    /// One tick: the next state and what the caller does.
    pub open spec fn tick(self) -> (HarnessView, TickStep) {
        match self.phase {
            Phase::Idle | Phase::Complete => (HarnessView { phase: Phase::Idle, ..self }, TickStep::Idle),
            Phase::PendingBench(idx) => (
                HarnessView {
                    phase: Phase::Running {
                        idx,
                        warmup_remaining: self.warmup_samples,
                        samples: 0,
                    },
                    ..self
                },
                TickStep::Started { idx },
            ),
            Phase::Running { idx, warmup_remaining, samples } => {
                let warming = warmup_remaining > 0;
                let warmup_left: usize = if warming {
                    (warmup_remaining - 1) as usize
                } else {
                    warmup_remaining
                };
                let counted: int = if warming {
                    samples as int
                } else {
                    samples + 1
                };
                if counted < self.measured_samples {
                    (
                        HarnessView {
                            phase: Phase::Running {
                                idx,
                                warmup_remaining: warmup_left,
                                samples: counted as usize,
                            },
                            ..self
                        },
                        if warming {
                            TickStep::Warmup { idx }
                        } else {
                            TickStep::Measured { idx }
                        },
                    )
                } else {
                    let pos = self.run_pos + 1;
                    let next = if pos < self.run_order.len() {
                        Some(self.run_order[pos as int])
                    } else {
                        None
                    };
                    (
                        HarnessView {
                            phase: match next {
                                Some(n) => Phase::PendingBench(n),
                                None => Phase::Complete,
                            },
                            run_pos: pos,
                            ..self
                        },
                        TickStep::Finished {
                            idx,
                            iterations: self.measured_samples,
                            next,
                            timed: !warming,
                        },
                    )
                }
            },
        }
    }

    /// Ticks left in a running benchmark with `warmup_remaining` warm-up
    /// frames to go and `samples` frames measured: the benchmark finishes on
    /// the first tick after which its measured frames reach the configured
    /// count.
    pub open spec fn bench_ticks_left(self, warmup_remaining: usize, samples: usize) -> nat {
        if samples < self.measured_samples {
            (warmup_remaining + self.measured_samples - samples) as nat
        } else {
            1
        }
    }

    /// Ticks per benchmark: one to start it, then its warm-up and measured
    /// frames.
    pub open spec fn ticks_per_bench(self) -> nat {
        1 + self.bench_ticks_left(self.warmup_samples, 0)
    }

    /// Ticks left before the run is over.
    pub open spec fn remaining_ticks(self) -> nat {
        match self.phase {
            Phase::PendingBench(_) => ((self.run_order.len() - self.run_pos) * self.ticks_per_bench()) as nat,
            Phase::Running { warmup_remaining, samples, .. } => ((self.run_order.len() - self.run_pos
                - 1) * self.ticks_per_bench() + self.bench_ticks_left(
                warmup_remaining,
                samples,
            )) as nat,
            _ => 0,
        }
    }
}

/// Runs predefined benchmarks one after another.
#[derive(Debug)]
pub struct BenchHarness {
    phase: Phase,
    preset: u32,
    run_order: Vec<usize>,
    run_pos: usize,
    warmup_samples: usize,
    measured_samples: usize,
}

impl View for BenchHarness {
    type V = HarnessView;

    closed spec fn view(&self) -> HarnessView {
        HarnessView {
            phase: self.phase,
            preset: self.preset,
            run_order: self.run_order@,
            run_pos: self.run_pos as nat,
            warmup_samples: self.warmup_samples,
            measured_samples: self.measured_samples,
        }
    }
}

impl BenchHarness {
    #[verifier::type_invariant]
    closed spec fn inv(self) -> bool {
        self@.wf()
    }

    /// An idle harness with the default preset and frame counts.
    pub fn new() -> (h: Self)
        ensures
            h@.phase == Phase::Idle,
            h@.preset == 10,
            h@.run_order.len() == 0,
            h@.run_pos == 0,
            h@.warmup_samples == BENCH_WARMUP_SAMPLES,
            h@.measured_samples == BENCH_MEASURED_SAMPLES,
    {
        BenchHarness {
            phase: Phase::Idle,
            preset: 10,
            run_order: Vec::new(),
            run_pos: 0,
            warmup_samples: BENCH_WARMUP_SAMPLES,
            measured_samples: BENCH_MEASURED_SAMPLES,
        }
    }

    pub fn preset(&self) -> (p: u32)
        ensures
            p == self@.preset,
    {
        self.preset
    }

    pub fn set_preset(&mut self, preset: u32)
        ensures
            final(self)@ == (HarnessView { preset, ..old(self)@ }),
    {
        proof {
            use_type_invariant(&*self);
        }
        self.preset = preset;
    }

    /// Sets the number of warm-up frames and of measured frames per
    /// benchmark.
    pub fn set_sample_counts(&mut self, warmup_samples: usize, measured_samples: usize)
        ensures
            final(self)@ == (HarnessView { warmup_samples, measured_samples, ..old(self)@ }),
    {
        proof {
            use_type_invariant(&*self);
        }
        self.warmup_samples = warmup_samples;
        self.measured_samples = measured_samples;
    }

    /// Starts a run of the selected benchmarks, in order.
    pub fn start(&mut self, selected: Vec<usize>)
        ensures
            final(self)@ == old(self)@.start(selected@),
    {
        proof {
            use_type_invariant(&*self);
        }
        self.phase = Phase::Idle;
        self.run_order = selected;
        self.run_pos = 0;
        if self.run_order.len() == 0 {
            self.phase = Phase::Complete;
        } else {
            self.phase = Phase::PendingBench(self.run_order[0]);
        }
    }

    pub fn is_running(&self) -> (b: bool)
        ensures
            b == self@.is_running(),
    {
        !matches!(self.phase, Phase::Idle | Phase::Complete)
    }

    pub fn current_bench_idx(&self) -> (r: Option<usize>)
        ensures
            r == self@.current_bench_idx(),
    {
        match self.phase {
            Phase::PendingBench(i) => Some(i),
            Phase::Running { idx, .. } => Some(idx),
            _ => None,
        }
    }

    /// Advances the harness by one frame.
    pub fn tick(&mut self) -> (step: TickStep)
        ensures
            final(self)@ == old(self)@.tick().0,
            step == old(self)@.tick().1,
    {
        proof {
            use_type_invariant(&*self);
        }
        match self.phase {
            Phase::Idle | Phase::Complete => {
                self.phase = Phase::Idle;
                TickStep::Idle
            },
            Phase::PendingBench(idx) => {
                self.phase = Phase::Running { idx, warmup_remaining: self.warmup_samples, samples: 0 };
                TickStep::Started { idx }
            },
            Phase::Running { idx, warmup_remaining, samples } => {
                let warming = warmup_remaining > 0;
                let (warmup_left, counted) = if warming {
                    (warmup_remaining - 1, samples)
                } else {
                    (warmup_remaining, samples + 1)
                };
                if counted < self.measured_samples {
                    self.phase = Phase::Running {
                        idx,
                        warmup_remaining: warmup_left,
                        samples: counted,
                    };
                    if warming {
                        TickStep::Warmup { idx }
                    } else {
                        TickStep::Measured { idx }
                    }
                } else {
                    let len = self.run_order.len();
                    self.phase = Phase::Idle;
                    self.run_pos = self.run_pos + 1;
                    let next = if self.run_pos < len {
                        Some(self.run_order[self.run_pos])
                    } else {
                        None
                    };
                    match next {
                        Some(n) => {
                            self.phase = Phase::PendingBench(n);
                        },
                        None => {
                            self.phase = Phase::Complete;
                        },
                    }
                    TickStep::Finished {
                        idx,
                        iterations: self.measured_samples,
                        next,
                        timed: !warming,
                    }
                }
            },
        }
    }
}

proof fn lemma_mul_succ(n: int, t: int)
    by (nonlinear_arith)
    requires
        n >= 1,
        t >= 0,
    ensures
        n * t == (n - 1) * t + t,
        (n - 1) * t >= 0,
        n == 1 ==> (n - 1) * t == 0,
{
}

/// Every tick keeps the harness well formed; while a run is on, each tick
/// brings the run exactly one tick closer to its end, and once the run is
/// over ticks do nothing.
pub proof fn law_tick_counts_down(v: HarnessView)
    requires
        v.wf(),
    ensures
        v.tick().0.wf(),
        v.tick().0.run_order == v.run_order,
        v.is_running() ==> v.tick().0.remaining_ticks() + 1 == v.remaining_ticks(),
        !v.is_running() ==> v.remaining_ticks() == 0 && v.tick().1 == TickStep::Idle
            && !v.tick().0.is_running(),
{
    match v.phase {
        Phase::PendingBench(_) | Phase::Running { .. } => {
            lemma_mul_succ(v.run_order.len() - v.run_pos, v.ticks_per_bench() as int);
        },
        _ => {},
    }
}

/// Starting a run of `n` benchmarks schedules exactly `n` times the ticks of
/// one benchmark.
pub proof fn law_start_schedules_every_selected_bench(v: HarnessView, selected: Seq<usize>)
    requires
        v.wf(),
    ensures
        v.start(selected).wf(),
        v.start(selected).remaining_ticks() == selected.len() * v.ticks_per_bench(),
        v.start(selected).is_running() <==> selected.len() > 0,
{
}

/// Benchmarks finish one at a time, in the order they were selected, each
/// after its full count of measured frames.
pub proof fn law_benches_finish_in_selected_order(v: HarnessView)
    requires
        v.wf(),
    ensures
        v.tick().1 matches TickStep::Finished { idx, iterations, .. } ==> {
            &&& idx == v.run_order[v.run_pos as int]
            &&& iterations == v.measured_samples
            &&& v.tick().0.run_pos == v.run_pos + 1
        },
        !(v.tick().1 is Finished) ==> v.tick().0.run_pos == v.run_pos,
        v.tick().1 matches TickStep::Started { idx } ==> idx == v.run_order[v.run_pos as int],
{
}

/// The steps reported by `n` ticks from `v`, in order.
pub open spec fn tick_steps(v: HarnessView, n: nat) -> Seq<TickStep>
    decreases n,
{
    if n == 0 {
        Seq::empty()
    } else {
        seq![v.tick().1] + tick_steps(v.tick().0, (n - 1) as nat)
    }
}

/// A tick reports a warm-up frame exactly when warm-up frames were left
/// and the benchmark goes on; a measured frame only once warm-up is over;
/// and the frame that finishes a benchmark is timed exactly when warm-up
/// was over.
pub proof fn law_warmup_frames_are_untimed(v: HarnessView)
    requires
        v.wf(),
    ensures
        v.tick().1 is Warmup <==> (v.phase matches Phase::Running { warmup_remaining, samples, .. }
            && warmup_remaining > 0 && samples < v.measured_samples),
        v.tick().1 is Measured ==> (v.phase matches Phase::Running { warmup_remaining, .. }
            && warmup_remaining == 0),
        v.tick().1 matches TickStep::Finished { timed, .. } ==> (timed <==> (v.phase matches Phase::Running {
            warmup_remaining,
            ..
        } && warmup_remaining == 0)),
{
}

proof fn lemma_running_steps(v: HarnessView, idx: usize, w: usize, s: usize)
    requires
        v.wf(),
        v.phase == (Phase::Running { idx, warmup_remaining: w, samples: s }),
        s < v.measured_samples,
    ensures
        ({
            let n = (w + v.measured_samples - s) as nat;
            let st = tick_steps(v, n);
            &&& st.len() == n
            &&& forall|k: int| 0 <= k < w ==> #[trigger] st[k] == (TickStep::Warmup { idx })
            &&& forall|k: int| w <= k < n - 1 ==> #[trigger] st[k] == (TickStep::Measured { idx })
            &&& st[n - 1] matches TickStep::Finished { idx: i, iterations, timed, .. } && i == idx
                && iterations == v.measured_samples && timed
        }),
    decreases w + v.measured_samples - s,
{
    let n = (w + v.measured_samples - s) as nat;
    let t = v.tick();
    let st = tick_steps(v, n);
    assert(st == seq![t.1] + tick_steps(t.0, (n - 1) as nat));
    if w > 0 {
        lemma_running_steps(t.0, idx, (w - 1) as usize, s);
        let rest = tick_steps(t.0, (n - 1) as nat);
        assert forall|k: int| 0 <= k < w implies #[trigger] st[k] == (TickStep::Warmup { idx }) by {
            if k > 0 {
                assert(st[k] == rest[k - 1]);
            }
        }
        assert forall|k: int| w <= k < n - 1 implies #[trigger] st[k] == (TickStep::Measured { idx }) by {
            assert(st[k] == rest[k - 1]);
        }
        assert(st[n - 1] == rest[n - 2]);
    } else if s + 1 < v.measured_samples {
        lemma_running_steps(t.0, idx, w, (s + 1) as usize);
        let rest = tick_steps(t.0, (n - 1) as nat);
        assert forall|k: int| w <= k < n - 1 implies #[trigger] st[k] == (TickStep::Measured { idx }) by {
            if k > 0 {
                assert(st[k] == rest[k - 1]);
            }
        }
        assert(st[n - 1] == rest[n - 2]);
    } else {
        assert(n == 1);
        assert(st[0] == t.1);
    }
}

/// Once started, a benchmark runs its warm-up frames untimed and then its
/// measured frames: after the `Started` step come exactly `warmup_samples`
/// `Warmup` steps, then `measured_samples - 1` `Measured` steps, then a timed
/// `Finished` step over `measured_samples` frames, all for the benchmark at
/// the current position of the run order.
pub proof fn law_bench_frames(v: HarnessView)
    requires
        v.wf(),
        v.phase is PendingBench,
        v.measured_samples >= 1,
    ensures
        ({
            let idx = v.run_order[v.run_pos as int];
            let n = (1 + v.warmup_samples + v.measured_samples) as nat;
            let st = tick_steps(v, n);
            &&& st.len() == n
            &&& st[0] == (TickStep::Started { idx })
            &&& forall|k: int| 1 <= k <= v.warmup_samples ==> #[trigger] st[k] == (TickStep::Warmup {
                idx,
            })
            &&& forall|k: int| v.warmup_samples < k < n - 1 ==> #[trigger] st[k] == (TickStep::Measured {
                idx,
            })
            &&& st[n - 1] matches TickStep::Finished { idx: i, iterations, timed, .. } && i == idx
                && iterations == v.measured_samples && timed
        }),
{
    let idx = v.run_order[v.run_pos as int];
    let n = (1 + v.warmup_samples + v.measured_samples) as nat;
    let t = v.tick();
    let st = tick_steps(v, n);
    assert(st == seq![t.1] + tick_steps(t.0, (n - 1) as nat));
    lemma_running_steps(t.0, idx, v.warmup_samples, 0);
    let rest = tick_steps(t.0, (n - 1) as nat);
    assert forall|k: int| 1 <= k <= v.warmup_samples implies #[trigger] st[k] == (TickStep::Warmup {
        idx,
    }) by {
        assert(st[k] == rest[k - 1]);
    }
    assert forall|k: int| v.warmup_samples < k < n - 1 implies #[trigger] st[k] == (TickStep::Measured {
        idx,
    }) by {
        assert(st[k] == rest[k - 1]);
    }
    assert(st[n - 1] == rest[n - 2]);
}

/// A run starts only when none is on, a calibration exists and something
/// is selected; it then starts at the configured viewport whenever both its
/// sides are set, whatever the current viewport is, and at the current
/// viewport otherwise.
pub proof fn law_start_viewport(
    running: bool,
    calibrated: bool,
    selected_len: nat,
    configured: (u32, u32),
    current: (u32, u32),
    other: (u32, u32),
)
    ensures
        running ==> start_decision(running, calibrated, selected_len, configured, current)
            == StartDecision::Refuse,
        !running && !calibrated ==> start_decision(
            running,
            calibrated,
            selected_len,
            configured,
            current,
        ) == StartDecision::NeedsCalibration,
        !running && calibrated && selected_len == 0 ==> start_decision(
            running,
            calibrated,
            selected_len,
            configured,
            current,
        ) == StartDecision::Refuse,
        !running && calibrated && selected_len > 0 && configured.0 > 0 && configured.1 > 0
            ==> start_decision(running, calibrated, selected_len, configured, current)
            == (StartDecision::Start { width: configured.0, height: configured.1 }),
        !running && calibrated && selected_len > 0 && (configured.0 == 0 || configured.1 == 0)
            ==> start_decision(running, calibrated, selected_len, configured, current)
            == (StartDecision::Start { width: current.0, height: current.1 }),
        configured.0 > 0 && configured.1 > 0 ==> start_decision(
            running,
            calibrated,
            selected_len,
            configured,
            current,
        ) == start_decision(running, calibrated, selected_len, configured, other),
{
}

/// A run goes through the selection as given, from its first benchmark,
/// with the counts and preset left as they were.
pub proof fn law_start_runs_the_selection(v: HarnessView, selected: Seq<usize>)
    ensures
        v.start(selected).run_order == selected,
        v.start(selected).run_pos == 0,
        v.start(selected).warmup_samples == v.warmup_samples,
        v.start(selected).measured_samples == v.measured_samples,
        v.start(selected).preset == v.preset,
        selected.len() > 0 ==> v.start(selected).current_bench_idx() == Some(selected[0]),
        selected.len() == 0 ==> v.start(selected).current_bench_idx() is None,
{
}

} // verus!
