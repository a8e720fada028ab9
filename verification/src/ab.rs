//! The A/B schedule: each selected benchmark runs on the control build and
//! then on the treatment build, round after round.

use vstd::prelude::*;

use crate::harness::StartDecision;
use crate::text::str_eq;

verus! {

/// One of the two builds under comparison.
#[derive(Debug, Clone, Copy, PartialEq, Eq, Structural)]
pub enum AbVariant {
    Control,
    Treatment,
}

pub open spec fn variant_from_name(name: Seq<char>) -> Option<AbVariant> {
    if name == "control"@ {
        Some(AbVariant::Control)
    } else if name == "treatment"@ {
        Some(AbVariant::Treatment)
    } else {
        None
    }
}

/// The variant that a message names, if any.
pub fn parse_ab_variant(value: &str) -> (r: Option<AbVariant>)
    ensures
        r == variant_from_name(value@),
{
    if str_eq(value, "control") {
        Some(AbVariant::Control)
    } else if str_eq(value, "treatment") {
        Some(AbVariant::Treatment)
    } else {
        None
    }
}

/// The name of the variant that is not `variant`; any name but "control"
/// counts as the treatment.
pub fn other_ab_variant(variant: &str) -> (r: &'static str)
    ensures
        r@ == (if variant@ == "control"@ {
            "treatment"@
        } else {
            "control"@
        }),
{
    if str_eq(variant, "control") {
        "treatment"
    } else {
        "control"
    }
}

/// What the caller does next in an A/B run.
#[derive(Debug, Clone, Copy, PartialEq, Eq, Structural)]
pub enum AbStep {
    /// Nothing; the message or request does not apply now.
    Ignore,
    /// Run benchmark `idx` on the control build, for round `round` (from 0).
    SendControl { idx: usize, round: usize },
    /// Keep the control result and run benchmark `idx` on the treatment build.
    SendTreatment { idx: usize, round: usize },
    /// Benchmark `idx` is done after `rounds` rounds; `next` is the benchmark
    /// whose control run comes next, or `None` when the A/B run is over.
    BenchDone { idx: usize, rounds: usize, next: Option<usize> },
}

/// The answer to a request to start an A/B run: without a calibration the
/// user is asked for one; unless both builds are ready and no A/B run is
/// on, nothing starts; nor with an empty selection or a viewport side of
/// zero; otherwise the run starts at the configured viewport.
pub open spec fn ab_start_decision(
    calibrated: bool,
    ready: bool,
    running: bool,
    selected_len: nat,
    configured: (u32, u32),
) -> StartDecision {
    if !calibrated {
        StartDecision::NeedsCalibration
    } else if !ready || running {
        StartDecision::Refuse
    } else if selected_len == 0 {
        StartDecision::Refuse
    } else if configured.0 == 0 || configured.1 == 0 {
        StartDecision::Refuse
    } else {
        StartDecision::Start { width: configured.0, height: configured.1 }
    }
}

/// Decides whether an A/B run of the selected benchmarks starts, and at
/// which viewport.
pub fn decide_ab_start(
    calibrated: bool,
    ready: bool,
    running: bool,
    selected_len: usize,
    configured: (u32, u32),
) -> (r: StartDecision)
    ensures
        r == ab_start_decision(calibrated, ready, running, selected_len as nat, configured),
{
    if !calibrated {
        StartDecision::NeedsCalibration
    } else if !ready || running {
        StartDecision::Refuse
    } else if selected_len == 0 {
        StartDecision::Refuse
    } else if configured.0 == 0 || configured.1 == 0 {
        StartDecision::Refuse
    } else {
        StartDecision::Start { width: configured.0, height: configured.1 }
    }
}

/// The A/B schedule as a mathematical value.
pub struct AbView {
    pub control_ready: bool,
    pub treatment_ready: bool,
    pub running: bool,
    pub selected: Seq<usize>,
    pub run_pos: nat,
    pub round_pos: usize,
    pub total_rounds: usize,
    pub pending_control: bool,
}

impl AbView {
    /// While running, the position is inside the selection and the round is
    /// one of the rounds to run (at least one round always runs).
    pub open spec fn wf(self) -> bool {
        self.running ==> {
            &&& self.run_pos < self.selected.len()
            &&& (self.round_pos == 0 || self.round_pos < self.total_rounds)
        }
    }

    pub open spec fn is_ready(self) -> bool {
        self.control_ready && self.treatment_ready
    }

    /// Rounds that every benchmark runs.
    pub open spec fn rounds(self) -> nat {
        if self.total_rounds == 0 {
            1
        } else {
            self.total_rounds as nat
        }
    }

    pub open spec fn mark_ready(self, variant: AbVariant) -> AbView {
        match variant {
            AbVariant::Control => AbView { control_ready: true, ..self },
            AbVariant::Treatment => AbView { treatment_ready: true, ..self },
        }
    }

    pub open spec fn start(self, selected: Seq<usize>, total_rounds: usize) -> (AbView, AbStep) {
        if !self.is_ready() || self.running || selected.len() == 0 {
            (self, AbStep::Ignore)
        } else {
            (
                AbView {
                    running: true,
                    selected,
                    run_pos: 0,
                    round_pos: 0,
                    total_rounds,
                    pending_control: false,
                    ..self
                },
                AbStep::SendControl { idx: selected[0], round: 0 },
            )
        }
    }

    pub open spec fn on_result(self, variant: AbVariant) -> (AbView, AbStep) {
        if !self.running || self.run_pos >= self.selected.len() {
            (self, AbStep::Ignore)
        } else {
            let idx = self.selected[self.run_pos as int];
            match variant {
                AbVariant::Control => (
                    AbView { pending_control: true, ..self },
                    AbStep::SendTreatment { idx, round: self.round_pos },
                ),
                AbVariant::Treatment => {
                    if !self.pending_control {
                        (self, AbStep::Ignore)
                    } else if self.round_pos + 1 < self.total_rounds {
                        (
                            AbView {
                                pending_control: false,
                                round_pos: (self.round_pos + 1) as usize,
                                ..self
                            },
                            AbStep::SendControl { idx, round: (self.round_pos + 1) as usize },
                        )
                    } else {
                        let pos = self.run_pos + 1;
                        let next = if pos < self.selected.len() {
                            Some(self.selected[pos as int])
                        } else {
                            None
                        };
                        (
                            AbView {
                                pending_control: false,
                                round_pos: 0,
                                run_pos: pos,
                                running: next is Some,
                                ..self
                            },
                            AbStep::BenchDone { idx, rounds: (self.round_pos + 1) as usize, next },
                        )
                    }
                },
            }
        }
    }
}

/// The A/B schedule.
#[derive(Debug)]
pub struct AbHarnessState {
    control_ready: bool,
    treatment_ready: bool,
    running: bool,
    selected: Vec<usize>,
    run_pos: usize,
    round_pos: usize,
    total_rounds: usize,
    pending_control: bool,
}

impl View for AbHarnessState {
    type V = AbView;

    closed spec fn view(&self) -> AbView {
        AbView {
            control_ready: self.control_ready,
            treatment_ready: self.treatment_ready,
            running: self.running,
            selected: self.selected@,
            run_pos: self.run_pos as nat,
            round_pos: self.round_pos,
            total_rounds: self.total_rounds,
            pending_control: self.pending_control,
        }
    }
}

impl AbHarnessState {
    #[verifier::type_invariant]
    closed spec fn inv(self) -> bool {
        self@.wf()
    }

    /// A schedule whose builds have not reported ready yet.
    pub fn new() -> (s: Self)
        ensures
            s@ == (AbView {
                control_ready: false,
                treatment_ready: false,
                running: false,
                selected: Seq::empty(),
                run_pos: 0,
                round_pos: 0,
                total_rounds: 1,
                pending_control: false,
            }),
    {
        AbHarnessState {
            control_ready: false,
            treatment_ready: false,
            running: false,
            selected: Vec::new(),
            run_pos: 0,
            round_pos: 0,
            total_rounds: 1,
            pending_control: false,
        }
    }

    /// Whether both builds have reported ready.
    pub fn is_ready(&self) -> (b: bool)
        ensures
            b == self@.is_ready(),
    {
        self.control_ready && self.treatment_ready
    }

    /// Whether an A/B run is on.
    pub fn is_running(&self) -> (b: bool)
        ensures
            b == self@.running,
    {
        self.running
    }

    /// Records that a build reported ready; returns whether both are ready.
    pub fn handle_ab_ready(&mut self, variant: AbVariant) -> (ready: bool)
        ensures
            final(self)@ == old(self)@.mark_ready(variant),
            ready == final(self)@.is_ready(),
    {
        proof {
            use_type_invariant(&*self);
        }
        match variant {
            AbVariant::Control => self.control_ready = true,
            AbVariant::Treatment => self.treatment_ready = true,
        }
        self.control_ready && self.treatment_ready
    }

    /// Starts an A/B run over the selected benchmarks, unless the builds are
    /// not ready, a run is on, or nothing is selected.
    pub fn start(&mut self, selected: Vec<usize>, total_rounds: usize) -> (step: AbStep)
        ensures
            final(self)@ == old(self)@.start(selected@, total_rounds).0,
            step == old(self)@.start(selected@, total_rounds).1,
    {
        proof {
            use_type_invariant(&*self);
        }
        if !(self.control_ready && self.treatment_ready) || self.running || selected.len() == 0 {
            return AbStep::Ignore;
        }
        let first = selected[0];
        self.selected = selected;
        self.run_pos = 0;
        self.round_pos = 0;
        self.total_rounds = total_rounds;
        self.pending_control = false;
        self.running = true;
        AbStep::SendControl { idx: first, round: 0 }
    }

    /// Takes in a benchmark result reported by one of the builds.
    pub fn handle_ab_bench_result(&mut self, variant: AbVariant) -> (step: AbStep)
        ensures
            final(self)@ == old(self)@.on_result(variant).0,
            step == old(self)@.on_result(variant).1,
    {
        proof {
            use_type_invariant(&*self);
        }
        if !self.running || self.run_pos >= self.selected.len() {
            return AbStep::Ignore;
        }
        let idx = self.selected[self.run_pos];
        match variant {
            AbVariant::Control => {
                self.pending_control = true;
                AbStep::SendTreatment { idx, round: self.round_pos }
            },
            AbVariant::Treatment => {
                if !self.pending_control {
                    return AbStep::Ignore;
                }
                self.pending_control = false;
                if self.round_pos + 1 < self.total_rounds {
                    self.round_pos = self.round_pos + 1;
                    AbStep::SendControl { idx, round: self.round_pos }
                } else {
                    let rounds = self.round_pos + 1;
                    let len = self.selected.len();
                    self.running = false;
                    self.round_pos = 0;
                    self.run_pos = self.run_pos + 1;
                    let next = if self.run_pos < len {
                        Some(self.selected[self.run_pos])
                    } else {
                        None
                    };
                    if next.is_some() {
                        self.running = true;
                    }
                    AbStep::BenchDone { idx, rounds, next }
                }
            },
        }
    }
}


impl AbView {
    /// Control/treatment pairs still to run before the A/B run is over.
    pub open spec fn remaining_pairs(self) -> nat {
        if self.running {
            ((self.selected.len() - self.run_pos - 1) * self.rounds() + (self.rounds()
                - self.round_pos)) as nat
        } else {
            0
        }
    }
}

proof fn lemma_mul_nonneg_succ(n: int, t: int)
    by (nonlinear_arith)
    requires
        n >= 1,
        t >= 0,
    ensures
        n * t == (n - 1) * t + t,
        (n - 1) * t >= 0,
        n == 1 ==> (n - 1) * t == 0,
{
}

/// Every request and result keeps the schedule well formed.
pub proof fn law_ab_schedule_stays_well_formed(
    v: AbView,
    variant: AbVariant,
    selected: Seq<usize>,
    total_rounds: usize,
)
    requires
        v.wf(),
    ensures
        v.mark_ready(variant).wf(),
        v.start(selected, total_rounds).0.wf(),
        v.on_result(variant).0.wf(),
{
}

/// A treatment result counts only after a control result of the same round;
/// otherwise it is ignored and changes nothing.
pub proof fn law_treatment_waits_for_control(v: AbView)
    ensures
        !v.pending_control ==> v.on_result(AbVariant::Treatment) == (v, AbStep::Ignore),
{
}

/// Benchmarks finish in the order they were selected, each after its full
/// number of rounds, and the run ends after the last one.
pub proof fn law_ab_benches_finish_in_order(v: AbView)
    requires
        v.wf(),
    ensures
        v.on_result(AbVariant::Treatment).1 matches AbStep::BenchDone { idx, rounds, next } ==> {
            &&& idx == v.selected[v.run_pos as int]
            &&& rounds == v.rounds()
            &&& next == (if v.run_pos + 1 < v.selected.len() {
                Some(v.selected[(v.run_pos + 1) as int])
            } else {
                None
            })
            &&& v.on_result(AbVariant::Treatment).0.running == (next is Some)
        },
{
}

/// An A/B run of `n` benchmarks takes exactly `n` times the number of rounds
/// of control/treatment pairs: each accepted treatment result completes one
/// pair, and nothing else does.
pub proof fn law_ab_run_counts_down(v: AbView, variant: AbVariant, selected: Seq<usize>, total_rounds: usize)
    requires
        v.wf(),
    ensures
        v.start(selected, total_rounds).1 != AbStep::Ignore ==> v.start(
            selected,
            total_rounds,
        ).0.remaining_pairs() == selected.len() * v.start(selected, total_rounds).0.rounds(),
        (v.on_result(variant).1 is BenchDone || v.on_result(variant).1 is SendControl)
            ==> v.on_result(variant).0.remaining_pairs() + 1 == v.remaining_pairs(),
        !((v.on_result(variant).1 is BenchDone || v.on_result(variant).1 is SendControl))
            ==> v.on_result(variant).0.remaining_pairs() == v.remaining_pairs(),
{
    let w = v.start(selected, total_rounds).0;
    if v.start(selected, total_rounds).1 != AbStep::Ignore {
        lemma_mul_nonneg_succ(selected.len() as int, w.rounds() as int);
    }
    if v.running && v.run_pos < v.selected.len() {
        lemma_mul_nonneg_succ(v.selected.len() - v.run_pos, v.rounds() as int);
        if v.run_pos + 1 < v.selected.len() {
            lemma_mul_nonneg_succ(v.selected.len() - v.run_pos - 1, v.rounds() as int);
        }
    }
}

/// An A/B run asks for a calibration first; it starts only when both
/// builds are ready, no A/B run is on, something is selected and both sides
/// of the configured viewport are set, and then at that viewport.
pub proof fn law_ab_start_viewport(
    calibrated: bool,
    ready: bool,
    running: bool,
    selected_len: nat,
    configured: (u32, u32),
)
    ensures
        !calibrated ==> ab_start_decision(calibrated, ready, running, selected_len, configured)
            == StartDecision::NeedsCalibration,
        ab_start_decision(calibrated, ready, running, selected_len, configured) is Start <==> (
        calibrated && ready && !running && selected_len > 0 && configured.0 > 0 && configured.1
            > 0),
        ab_start_decision(calibrated, ready, running, selected_len, configured) is Start ==> ab_start_decision(
            calibrated,
            ready,
            running,
            selected_len,
            configured,
        ) == (StartDecision::Start { width: configured.0, height: configured.1 }),
        calibrated && !(calibrated && ready && !running && selected_len > 0 && configured.0 > 0
            && configured.1 > 0) ==> ab_start_decision(
            calibrated,
            ready,
            running,
            selected_len,
            configured,
        ) == StartDecision::Refuse,
{
}

/// Each build is asked to run the benchmark being compared: a start asks
/// the control build for the first selected benchmark in round 0; a control
/// result asks the treatment build for the benchmark at the current
/// position in the same round; a treatment result that does not finish the
/// benchmark asks the control build for the same benchmark in the next
/// round. A result that is ignored changes nothing.
pub proof fn law_ab_sends_the_current_bench(
    v: AbView,
    variant: AbVariant,
    selected: Seq<usize>,
    total_rounds: usize,
)
    requires
        v.wf(),
    ensures
        v.start(selected, total_rounds).1 matches AbStep::SendControl { idx, round } ==> idx
            == selected[0] && round == 0,
        v.on_result(variant).1 matches AbStep::SendTreatment { idx, round } ==> {
            &&& variant == AbVariant::Control
            &&& idx == v.selected[v.run_pos as int]
            &&& round == v.round_pos
            &&& v.on_result(variant).0.run_pos == v.run_pos
        },
        v.on_result(variant).1 matches AbStep::SendControl { idx, round } ==> {
            &&& variant == AbVariant::Treatment
            &&& idx == v.selected[v.run_pos as int]
            &&& round == v.round_pos + 1
            &&& v.on_result(variant).0.run_pos == v.run_pos
        },
        v.on_result(variant).1 is Ignore ==> v.on_result(variant).0 == v,
{
}

/// A started A/B run goes through the selection as given, from its first
/// benchmark and first round, with the requested number of rounds.
pub proof fn law_ab_start_runs_the_selection(v: AbView, selected: Seq<usize>, total_rounds: usize)
    ensures
        v.start(selected, total_rounds).1 != AbStep::Ignore <==> (v.is_ready() && !v.running
            && selected.len() > 0),
        v.start(selected, total_rounds).1 != AbStep::Ignore ==> {
            let w = v.start(selected, total_rounds).0;
            &&& w.running
            &&& w.selected == selected
            &&& w.run_pos == 0
            &&& w.round_pos == 0
            &&& w.total_rounds == total_rounds
            &&& !w.pending_control
        },
        v.start(selected, total_rounds).1 == AbStep::Ignore ==> v.start(selected, total_rounds).0 == v,
{
}

} // verus!
