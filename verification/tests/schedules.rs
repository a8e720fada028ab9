use vello_bench2::ab::{
    decide_ab_start, other_ab_variant, parse_ab_variant, AbHarnessState, AbStep, AbVariant,
};
use vello_bench2::harness::{
    decide_start, BenchHarness, StartDecision, TickStep, BENCH_MEASURED_SAMPLES,
    BENCH_WARMUP_SAMPLES,
};

#[test]
fn harness_runs_selected_benches_in_order() {
    let mut h = BenchHarness::new();
    assert!(!h.is_running());
    assert_eq!(h.preset(), 10);
    h.start(vec![4, 1]);
    assert!(h.is_running());
    assert_eq!(h.current_bench_idx(), Some(4));
    let mut steps = Vec::new();
    let mut ticks = 0;
    loop {
        let step = h.tick();
        if step == TickStep::Idle {
            break;
        }
        ticks += 1;
        steps.push(step);
    }
    assert_eq!(ticks, 2 * (1 + BENCH_WARMUP_SAMPLES + BENCH_MEASURED_SAMPLES));
    assert_eq!(steps[0], TickStep::Started { idx: 4 });
    assert_eq!(steps[1], TickStep::Warmup { idx: 4 });
    assert_eq!(steps[4], TickStep::Measured { idx: 4 });
    assert_eq!(
        steps[18],
        TickStep::Finished { idx: 4, iterations: 15, next: Some(1), timed: true }
    );
    assert_eq!(steps[19], TickStep::Started { idx: 1 });
    assert_eq!(
        steps[37],
        TickStep::Finished { idx: 1, iterations: 15, next: None, timed: true }
    );
    assert!(!h.is_running());
    assert_eq!(h.current_bench_idx(), None);
}

#[test]
fn harness_with_nothing_selected_completes() {
    let mut h = BenchHarness::new();
    h.start(Vec::new());
    assert!(!h.is_running());
    assert_eq!(h.tick(), TickStep::Idle);
}

#[test]
fn harness_sample_counts() {
    let mut h = BenchHarness::new();
    h.set_sample_counts(0, 1);
    h.set_preset(18);
    assert_eq!(h.preset(), 18);
    h.start(vec![2]);
    assert_eq!(h.tick(), TickStep::Started { idx: 2 });
    assert_eq!(
        h.tick(),
        TickStep::Finished { idx: 2, iterations: 1, next: None, timed: true }
    );
    assert_eq!(h.tick(), TickStep::Idle);
}

#[test]
fn harness_sample_counts_are_taken_as_given() {
    let mut h = BenchHarness::new();
    h.set_sample_counts(2, 0);
    h.start(vec![5, 6]);
    assert_eq!(h.tick(), TickStep::Started { idx: 5 });
    // With nothing to measure, the first frame after the start ends the
    // benchmark, though it is a warm-up frame.
    assert_eq!(
        h.tick(),
        TickStep::Finished { idx: 5, iterations: 0, next: Some(6), timed: false }
    );
    h.set_sample_counts(0, 0);
    assert_eq!(h.tick(), TickStep::Started { idx: 6 });
    assert_eq!(
        h.tick(),
        TickStep::Finished { idx: 6, iterations: 0, next: None, timed: true }
    );
    assert_eq!(h.tick(), TickStep::Idle);
}

#[test]
fn harness_counts_changed_while_idle_keep_it_idle() {
    let mut h = BenchHarness::new();
    h.set_sample_counts(1, 2);
    assert!(!h.is_running());
    assert_eq!(h.tick(), TickStep::Idle);
    h.start(vec![3]);
    let mut ticks = 0;
    while h.tick() != TickStep::Idle {
        ticks += 1;
    }
    assert_eq!(ticks, 1 + 1 + 2);
}

#[test]
fn ab_variant_names() {
    assert_eq!(parse_ab_variant("control"), Some(AbVariant::Control));
    assert_eq!(parse_ab_variant("treatment"), Some(AbVariant::Treatment));
    assert_eq!(parse_ab_variant("other"), None);
    assert_eq!(other_ab_variant("control"), "treatment");
    assert_eq!(other_ab_variant("treatment"), "control");
    assert_eq!(other_ab_variant("anything"), "control");
}

#[test]
fn ab_needs_both_builds_ready() {
    let mut ab = AbHarnessState::new();
    assert_eq!(ab.start(vec![0], 1), AbStep::Ignore);
    assert!(!ab.handle_ab_ready(AbVariant::Control));
    assert!(!ab.is_ready());
    assert!(ab.handle_ab_ready(AbVariant::Treatment));
    assert_eq!(ab.start(Vec::new(), 1), AbStep::Ignore);
    assert_eq!(ab.start(vec![3], 1), AbStep::SendControl { idx: 3, round: 0 });
    assert!(ab.is_running());
    assert_eq!(ab.start(vec![4], 1), AbStep::Ignore);
}

#[test]
fn ab_alternates_and_counts_rounds() {
    let mut ab = AbHarnessState::new();
    ab.handle_ab_ready(AbVariant::Control);
    ab.handle_ab_ready(AbVariant::Treatment);
    assert_eq!(ab.start(vec![7, 9], 2), AbStep::SendControl { idx: 7, round: 0 });
    assert_eq!(ab.handle_ab_bench_result(AbVariant::Treatment), AbStep::Ignore);
    assert_eq!(
        ab.handle_ab_bench_result(AbVariant::Control),
        AbStep::SendTreatment { idx: 7, round: 0 }
    );
    assert_eq!(
        ab.handle_ab_bench_result(AbVariant::Treatment),
        AbStep::SendControl { idx: 7, round: 1 }
    );
    assert_eq!(
        ab.handle_ab_bench_result(AbVariant::Control),
        AbStep::SendTreatment { idx: 7, round: 1 }
    );
    assert_eq!(
        ab.handle_ab_bench_result(AbVariant::Treatment),
        AbStep::BenchDone { idx: 7, rounds: 2, next: Some(9) }
    );
    ab.handle_ab_bench_result(AbVariant::Control);
    ab.handle_ab_bench_result(AbVariant::Treatment);
    ab.handle_ab_bench_result(AbVariant::Control);
    assert_eq!(
        ab.handle_ab_bench_result(AbVariant::Treatment),
        AbStep::BenchDone { idx: 9, rounds: 2, next: None }
    );
    assert!(!ab.is_running());
    assert_eq!(ab.handle_ab_bench_result(AbVariant::Control), AbStep::Ignore);
}

#[test]
fn ab_zero_rounds_runs_one_round() {
    let mut ab = AbHarnessState::new();
    ab.handle_ab_ready(AbVariant::Treatment);
    ab.handle_ab_ready(AbVariant::Control);
    assert_eq!(ab.start(vec![1], 0), AbStep::SendControl { idx: 1, round: 0 });
    ab.handle_ab_bench_result(AbVariant::Control);
    assert_eq!(
        ab.handle_ab_bench_result(AbVariant::Treatment),
        AbStep::BenchDone { idx: 1, rounds: 1, next: None }
    );
}

#[test]
fn start_is_decided_in_order() {
    assert_eq!(decide_start(true, false, 0, (0, 0), (1, 1)), StartDecision::Refuse);
    assert_eq!(
        decide_start(false, false, 0, (0, 0), (1, 1)),
        StartDecision::NeedsCalibration
    );
    assert_eq!(decide_start(false, true, 0, (800, 600), (1, 1)), StartDecision::Refuse);
    assert_eq!(
        decide_start(false, true, 2, (800, 600), (1024, 768)),
        StartDecision::Start { width: 800, height: 600 }
    );
    assert_eq!(
        decide_start(false, true, 2, (800, 0), (1024, 768)),
        StartDecision::Start { width: 1024, height: 768 }
    );
    assert_eq!(
        decide_start(false, true, 1, (0, 600), (1024, 768)),
        StartDecision::Start { width: 1024, height: 768 }
    );
}

#[test]
fn ab_start_is_decided_in_order() {
    assert_eq!(
        decide_ab_start(false, true, true, 0, (0, 0)),
        StartDecision::NeedsCalibration
    );
    assert_eq!(decide_ab_start(true, false, false, 3, (800, 600)), StartDecision::Refuse);
    assert_eq!(decide_ab_start(true, true, true, 3, (800, 600)), StartDecision::Refuse);
    assert_eq!(decide_ab_start(true, true, false, 0, (800, 600)), StartDecision::Refuse);
    assert_eq!(decide_ab_start(true, true, false, 3, (0, 600)), StartDecision::Refuse);
    assert_eq!(
        decide_ab_start(true, true, false, 3, (800, 600)),
        StartDecision::Start { width: 800, height: 600 }
    );
}
