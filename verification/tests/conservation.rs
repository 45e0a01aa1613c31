use conservation_checker::ConservationChecker;
use screenpipe_engine::decision::RESTORE_CHECK_TICKS;
use screenpipe_engine::{
    measure_tree, Budgets, ConservationState, Phase, ProcessSample, RecordingQuality, Tick,
};

fn percent(amount: f64) -> i64 {
    (amount * 1_000_000.0).round() as i64
}

fn mb(amount: f64) -> i64 {
    (amount * 1_048_576.0).round() as i64
}

fn report(state: &mut ConservationState, cpu: f64, mem: f64) -> Tick {
    state.update_metrics(percent(cpu), mb(mem), 0)
}

#[test]
fn test_quality_decision_chain() {
    let mut state = ConservationState::new();
    assert_eq!(state.capture_interval_multiplier(), Some(1));
    assert!(!state.skip_hd_recording());
    assert!((f64::from(state.jpeg_quality_factor()) / 100.0 - 1.0).abs() < 0.01);

    report(&mut state, 14.0, 100.0);

    report(&mut state, 20.0, 600.0);
    assert!(state.is_degraded());
    assert!(state.is_critical());
    assert!(state.skip_hd_recording());
    assert!(state.skip_transcription());
    assert!(f64::from(state.jpeg_quality_factor()) / 100.0 < 0.5);
}

#[test]
fn test_recovery_after_degradation() {
    let mut state = ConservationState::new();

    report(&mut state, 20.0, 600.0);
    assert!(state.is_degraded());

    report(&mut state, 5.0, 200.0);

    for _ in 0..RESTORE_CHECK_TICKS + 1 {
        report(&mut state, 5.0, 200.0);
    }

    assert!(!state.is_critical(), "should restore from critical");
}

#[test]
fn test_register_and_violations() {
    let mut checker = ConservationChecker::new();
    checker.register("mem_headroom", 500.0, 50.0);

    assert!(checker.is_conserved("mem_headroom"));

    checker.update("mem_headroom", 20.0);
    assert!(!checker.is_conserved("mem_headroom"));

    let violations = checker.violations();
    assert!(violations.contains(&"mem_headroom".to_string()));
}

#[test]
fn fresh_state_records_at_full_quality() {
    let state = ConservationState::new();
    assert_eq!(state.raw_quality(), 0);
    assert!(!state.is_degraded());
    assert!(!state.is_critical());
    assert!(!state.skip_transcription());
    assert!(!state.has_violation());
    assert_eq!(state.jpeg_quality_factor(), 100);
}

#[test]
fn usage_at_the_tolerance_is_conserved_and_above_it_is_not() {
    let mut state = ConservationState::new();
    let tick = state.update_metrics(5_000_000, 52_428_800, 0);
    assert_eq!(tick.cpu_headroom, 10_000_000);
    assert_eq!(tick.mem_headroom, 471_859_200);
    assert!(!tick.cpu.violated);
    assert!(!tick.mem.violated);
    assert_eq!(tick.quality, RecordingQuality::Full);
    assert!(!state.has_violation());

    let mut state = ConservationState::new();
    let tick = state.update_metrics(5_000_001, 52_428_800, 0);
    assert!(tick.cpu.violated);
    assert!(!tick.mem.violated);
    assert_eq!(tick.quality, RecordingQuality::Reduced);
    assert!(state.has_violation());
    assert_eq!(state.raw_quality(), 1);
    assert_eq!(state.capture_interval_multiplier(), Some(2));
    assert_eq!(state.jpeg_quality_factor(), 70);
    assert!(state.skip_hd_recording());
    assert!(!state.skip_transcription());

    let mut state = ConservationState::new();
    let tick = state.update_metrics(5_000_000, 52_428_801, 0);
    assert!(!tick.cpu.violated);
    assert!(tick.mem.violated);
    assert_eq!(tick.quality, RecordingQuality::Reduced);
}

#[test]
fn both_violated_is_minimal_at_once() {
    let mut state = ConservationState::new();
    let tick = report(&mut state, 14.0, 100.0);
    assert_eq!(tick.previous, RecordingQuality::Full);
    assert_eq!(tick.quality, RecordingQuality::Minimal);
    assert_eq!(tick.cpu.phase, Phase::Stable);
    assert_eq!(state.raw_quality(), 2);
    assert_eq!(state.capture_interval_multiplier(), Some(5));
    assert_eq!(state.jpeg_quality_factor(), 40);
}

#[test]
fn headroom_never_falls_below_nothing() {
    let mut state = ConservationState::new();
    let tick = state.update_metrics(i64::MAX, i64::MAX, 0);
    assert_eq!(tick.cpu_headroom, 0);
    assert_eq!(tick.mem_headroom, 0);
    let tick = state.update_metrics(0, 0, 0);
    assert_eq!(tick.cpu_headroom, 15_000_000);
    assert_eq!(tick.mem_headroom, 524_288_000);
}

#[test]
fn early_warning_reduces_before_any_violation() {
    let mut state = ConservationState::new();
    let tick = report(&mut state, 1.0, 10.0);
    assert_eq!(tick.quality, RecordingQuality::Full);
    let tick = report(&mut state, 3.0, 10.0);
    assert!(!tick.cpu.violated && !tick.mem.violated);
    assert_eq!(tick.cpu.phase, Phase::PreTransition);
    assert_eq!(tick.mem.phase, Phase::Stable);
    assert_eq!(tick.quality, RecordingQuality::Reduced);
}

#[test]
fn steps_within_the_noise_are_steady() {
    let mut state = ConservationState::new();
    state.update_metrics(0, 0, 0);
    let tick = state.update_metrics(50_000, 524_288, 0);
    assert_eq!(tick.cpu.phase, Phase::Stable);
    assert_eq!(tick.mem.phase, Phase::Stable);
    assert_eq!(tick.quality, RecordingQuality::Full);

    let mut state = ConservationState::new();
    state.update_metrics(0, 0, 0);
    let tick = state.update_metrics(50_001, 524_288, 0);
    assert_eq!(tick.cpu.phase, Phase::PreTransition);
    assert_eq!(tick.mem.phase, Phase::Stable);

    let mut state = ConservationState::new();
    state.update_metrics(0, 0, 0);
    let tick = state.update_metrics(50_000, 524_289, 0);
    assert_eq!(tick.cpu.phase, Phase::Stable);
    assert_eq!(tick.mem.phase, Phase::PreTransition);
}

#[test]
fn a_step_no_faster_than_the_older_one_is_steady() {
    let mut state = ConservationState::new();
    report(&mut state, 2.0, 0.0);
    report(&mut state, 2.0, 0.0);
    let tick = report(&mut state, 4.0, 0.0);
    assert_eq!(tick.cpu.phase, Phase::Stable);
    let mut state = ConservationState::new();
    report(&mut state, 2.0, 0.0);
    report(&mut state, 2.0, 0.0);
    let tick = state.update_metrics(4_000_001, 0, 0);
    assert_eq!(tick.cpu.phase, Phase::PreTransition);
}

#[test]
fn violated_and_falling_or_rising() {
    let mut state = ConservationState::new();
    report(&mut state, 14.0, 400.0);
    let tick = report(&mut state, 15.0, 390.0);
    assert_eq!(tick.cpu.phase, Phase::Transitioning);
    assert_eq!(tick.mem.phase, Phase::Resolving);
    assert_eq!(tick.quality, RecordingQuality::Minimal);
}

#[test]
fn six_recovering_ticks_restore_one_tier() {
    let mut state = ConservationState::new();
    report(&mut state, 15.0, 490.0);
    for i in 1..=5 {
        let tick = report(&mut state, 15.0 - i as f64, 490.0 - 10.0 * i as f64);
        assert_eq!(tick.cpu.phase, Phase::Resolving);
        assert_eq!(tick.mem.phase, Phase::Resolving);
        assert_eq!(tick.quality, RecordingQuality::Minimal);
    }
    let tick = report(&mut state, 9.0, 430.0);
    assert_eq!(tick.previous, RecordingQuality::Minimal);
    assert_eq!(tick.quality, RecordingQuality::Reduced);
    assert!(!state.is_critical());
    let tick = report(&mut state, 8.0, 420.0);
    assert_eq!(tick.quality, RecordingQuality::Minimal);
}

#[test]
fn an_interrupted_run_starts_over() {
    let mut state = ConservationState::new();
    report(&mut state, 15.0, 490.0);
    for i in 1..=5 {
        report(&mut state, 15.0 - i as f64, 490.0 - 10.0 * i as f64);
    }
    report(&mut state, 10.0, 440.0);
    for i in 1..=5 {
        let step = 0.5 * i as f64;
        let tick = report(&mut state, 10.0 - step, 440.0 - 10.0 * step);
        assert_eq!(tick.quality, RecordingQuality::Minimal);
    }
    let tick = report(&mut state, 7.0, 410.0);
    assert_eq!(tick.quality, RecordingQuality::Reduced);
}

#[test]
fn spent_budgets_are_critical_in_the_middle_of_a_recovery() {
    let mut state = ConservationState::new();
    report(&mut state, 14.0, 490.0);
    for i in 1..=5 {
        report(&mut state, 14.0 - i as f64, 490.0 - 10.0 * i as f64);
    }
    let tick = report(&mut state, 15.0, 500.0);
    assert_eq!(tick.quality, RecordingQuality::Minimal);
    assert!(state.is_critical());
    assert!(state.has_violation());
}

#[test]
fn degraded_quality_does_not_become_full_again() {
    let mut state = ConservationState::new();
    report(&mut state, 20.0, 600.0);
    for _ in 0..50 {
        report(&mut state, 0.0, 0.0);
        assert!(state.is_degraded());
        assert!(!state.has_violation());
    }
    assert_eq!(state.raw_quality(), 1);
}

#[test]
fn calm_keeps_critical_quality() {
    let mut state = ConservationState::new();
    report(&mut state, 15.0, 500.0);
    report(&mut state, 15.0, 500.0);
    let tick = report(&mut state, 4.0, 40.0);
    assert_eq!(tick.cpu.phase, Phase::Stable);
    assert_eq!(tick.mem.phase, Phase::Stable);
    assert!(!state.has_violation());
    assert!(state.is_critical());
}

#[test]
fn summaries_are_more_than_a_minute_apart() {
    let mut state = ConservationState::new();
    assert!(!state.update_metrics(0, 0, 60_000).summary_due);
    assert!(state.update_metrics(0, 0, 60_001).summary_due);
    assert!(!state.update_metrics(0, 0, 60_001).summary_due);
    assert!(!state.update_metrics(0, 0, 10).summary_due);
    assert!(!state.update_metrics(0, 0, 120_001).summary_due);
    assert!(state.update_metrics(0, 0, 120_002).summary_due);
}

#[test]
fn a_byte_above_the_tolerance_is_seen() {
    let own = ProcessSample { pid: 10, parent: None, cpu: 0, memory: 52_428_801 };
    let usage = measure_tree(&vec![own], 10);
    let mut state = ConservationState::new();
    let tick = state.update_metrics(usage.cpu as i64, usage.memory as i64, 0);
    assert!(tick.mem.violated);
    assert_eq!(tick.quality, RecordingQuality::Reduced);
}

#[test]
fn a_tolerance_below_one_percent_keeps_the_noise_of_one() {
    let budgets = Budgets { cpu_tolerance: 500_000, ..Budgets::default() };
    let mut state = ConservationState::with_budgets(budgets);
    state.update_metrics(0, 0, 0);
    assert_eq!(state.update_metrics(8_000, 0, 0).cpu.phase, Phase::Stable);
    let mut state = ConservationState::with_budgets(budgets);
    state.update_metrics(0, 0, 0);
    assert_eq!(state.update_metrics(10_000, 0, 0).cpu.phase, Phase::Stable);
    let mut state = ConservationState::with_budgets(budgets);
    state.update_metrics(0, 0, 0);
    assert_eq!(state.update_metrics(10_001, 0, 0).cpu.phase, Phase::PreTransition);
    let mut state = ConservationState::with_budgets(budgets);
    assert!(!state.update_metrics(500_000, 0, 0).cpu.violated);
    assert!(state.update_metrics(500_001, 0, 0).cpu.violated);
}

#[test]
fn usage_below_zero_leaves_more_than_the_budget() {
    let mut state = ConservationState::new();
    let tick = report(&mut state, -1.0, -10.0);
    assert_eq!(tick.cpu_headroom, 16_000_000);
    assert_eq!(tick.mem_headroom, 534_773_760);
    assert!(!state.has_violation());
    let tick = state.update_metrics(i64::MIN, i64::MIN, 0);
    assert_eq!(tick.cpu_headroom, u32::MAX);
    assert!(!state.has_violation());
}

#[test]
fn nearly_all_budgets_are_usable() {
    assert!(Budgets::default().are_usable());
    let largest = Budgets { cpu_max: u32::MAX, memory_max: u32::MAX, ..Budgets::default() };
    assert!(largest.are_usable());
    assert!(!Budgets { cpu_tolerance: 0, ..largest }.are_usable());
    assert!(!Budgets { memory_tolerance: 0, ..largest }.are_usable());
    assert!(Budgets { cpu_max: 4_293_967_295, cpu_tolerance: 0, ..largest }.are_usable());
}

#[test]
fn budgets_can_be_chosen() {
    let budgets = Budgets { cpu_max: 30_000_000, cpu_tolerance: 15_000_000, ..Budgets::default() };
    let mut state = ConservationState::with_budgets(budgets);
    let tick = report(&mut state, 15.0, 0.0);
    assert_eq!(tick.cpu_headroom, 15_000_000);
    assert!(!tick.cpu.violated);
    let tick = report(&mut state, 15.1, 0.0);
    assert!(tick.cpu.violated);
}

#[test]
fn a_tolerance_of_the_whole_budget_is_never_violated() {
    let budgets = Budgets { cpu_tolerance: 15_000_000, ..Budgets::default() };
    let mut state = ConservationState::with_budgets(budgets);
    assert!(!report(&mut state, 100.0, 0.0).cpu.violated);
}

#[test]
fn default_budgets() {
    let budgets = Budgets::default();
    assert_eq!(budgets.cpu_max, 15_000_000);
    assert_eq!(budgets.cpu_tolerance, 5_000_000);
    assert_eq!(budgets.memory_max, 524_288_000);
    assert_eq!(budgets.memory_tolerance, 52_428_800);
}

fn same_phase(phase: Phase, shown: conservation_checker::Phase) -> bool {
    match phase {
        Phase::Stable => shown == conservation_checker::Phase::Stable,
        Phase::PreTransition => shown == conservation_checker::Phase::PreTransition,
        Phase::Transitioning => shown == conservation_checker::Phase::Transitioning,
        Phase::Resolving => shown == conservation_checker::Phase::Resolving,
    }
}

fn compare_with_percent_and_mb(cpu_tolerance: u32, memory_tolerance: u32, cpu_range: u64) {
    let mut checker = ConservationChecker::new();
    checker.register("cpu_headroom", 15.0, f64::from(cpu_tolerance) / 1_000_000.0);
    checker.register("mem_headroom", 500.0, f64::from(memory_tolerance) / 1_048_576.0);
    let budgets = Budgets { cpu_tolerance, memory_tolerance, ..Budgets::default() };
    let mut state = ConservationState::with_budgets(budgets);
    let mut seed: u64 = 7;
    for _ in 0..2000 {
        seed = seed.wrapping_mul(6364136223846793005).wrapping_add(1442695040888963407);
        let cpu = (seed >> 33) % cpu_range;
        seed = seed.wrapping_mul(6364136223846793005).wrapping_add(1442695040888963407);
        let mem = (seed >> 33) % (cpu_range * 35);
        let tick = state.update_metrics(cpu as i64, mem as i64, 0);
        checker.update("cpu_headroom", (15.0 - cpu as f64 / 1_000_000.0).max(0.0));
        checker.update("mem_headroom", (500.0 - mem as f64 / 1_048_576.0).max(0.0));
        checker.snapshot();
        assert!(same_phase(tick.cpu.phase, checker.phase("cpu_headroom")));
        assert!(same_phase(tick.mem.phase, checker.phase("mem_headroom")));
        assert_eq!(tick.cpu.violated, !checker.is_conserved("cpu_headroom"));
        assert_eq!(tick.mem.violated, !checker.is_conserved("mem_headroom"));
    }
}

#[test]
fn the_unit_of_headroom_does_not_matter() {
    compare_with_percent_and_mb(5_000_000, 52_428_800, 18_000_000);
    compare_with_percent_and_mb(500_000, 524_288, 18_000_000);
    compare_with_percent_and_mb(500_000, 524_288, 30_000);
    compare_with_percent_and_mb(0, 0, 30_000);
}
