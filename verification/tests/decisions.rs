use conservation_checker::ConservationChecker;
use screenpipe_engine::{
    decide, measure_tree, Phase, ProcessSample, QualityCode, Reading, RecordingQuality,
    ResourceToken, Usage,
};

fn reading(phase: Phase, violated: bool) -> Reading {
    Reading { phase, violated }
}

#[test]
fn labels_and_codes() {
    assert_eq!(RecordingQuality::Full.label(), "full");
    assert_eq!(RecordingQuality::Reduced.label(), "reduced");
    assert_eq!(RecordingQuality::Minimal.label(), "minimal");
    assert_eq!(RecordingQuality::Paused.label(), "paused");
    assert_eq!(RecordingQuality::Full.code(), 0);
    assert_eq!(RecordingQuality::Reduced.code(), 1);
    assert_eq!(RecordingQuality::Minimal.code(), 2);
    assert_eq!(RecordingQuality::Paused.code(), 3);
    assert!(RecordingQuality::Full < RecordingQuality::Reduced);
    assert!(RecordingQuality::Minimal < RecordingQuality::Paused);
}

#[test]
fn restoring_moves_one_tier() {
    assert_eq!(RecordingQuality::Paused.restored(), RecordingQuality::Minimal);
    assert_eq!(RecordingQuality::Minimal.restored(), RecordingQuality::Reduced);
    assert_eq!(RecordingQuality::Reduced.restored(), RecordingQuality::Full);
    assert_eq!(RecordingQuality::Full.restored(), RecordingQuality::Full);
}

#[test]
fn worse_tiers_capture_less() {
    for raw in 0..3 {
        let better = QualityCode { raw };
        let worse = QualityCode { raw: raw + 1 };
        assert!(worse.jpeg_quality_factor() < better.jpeg_quality_factor());
    }
    let full = QualityCode { raw: 0 };
    let paused = QualityCode { raw: 3 };
    let unknown = QualityCode { raw: 4 };
    assert_eq!(full.capture_interval_multiplier(), Some(1));
    assert_eq!(paused.capture_interval_multiplier(), None);
    assert_eq!(paused.jpeg_quality_factor(), 0);
    assert!(paused.is_critical() && paused.is_degraded());
    assert!(paused.skip_hd_recording() && paused.skip_transcription());
    assert_eq!(unknown.capture_interval_multiplier(), Some(1));
    assert_eq!(unknown.jpeg_quality_factor(), 100);
    assert!(unknown.is_degraded() && unknown.is_critical());
}

#[test]
fn decisions_answer_pressure() {
    let calm = reading(Phase::Stable, false);
    let over = reading(Phase::Transitioning, true);
    let warned = reading(Phase::PreTransition, false);
    let full = RecordingQuality::Full;

    let outcome = decide(full, 3, calm, calm);
    assert_eq!(outcome.quality, RecordingQuality::Full);
    assert_eq!(outcome.conserved_ticks, 0);
    assert_eq!(decide(full, 0, over, calm).quality, RecordingQuality::Reduced);
    assert_eq!(decide(full, 0, calm, over).quality, RecordingQuality::Reduced);
    assert_eq!(decide(full, 0, over, over).quality, RecordingQuality::Minimal);
    assert_eq!(decide(full, 0, warned, calm).quality, RecordingQuality::Reduced);
    assert_eq!(decide(full, 0, calm, warned).quality, RecordingQuality::Reduced);
    let paused = RecordingQuality::Paused;
    assert_eq!(decide(paused, 0, calm, calm).quality, RecordingQuality::Paused);
    assert_eq!(decide(paused, 0, over, calm).quality, RecordingQuality::Reduced);
}

#[test]
fn decisions_restore_after_a_full_run() {
    let rising = reading(Phase::Resolving, true);
    let outcome = decide(RecordingQuality::Minimal, 4, rising, rising);
    assert_eq!(outcome.quality, RecordingQuality::Minimal);
    assert_eq!(outcome.conserved_ticks, 5);
    let outcome = decide(RecordingQuality::Minimal, 5, rising, rising);
    assert_eq!(outcome.quality, RecordingQuality::Reduced);
    assert_eq!(outcome.conserved_ticks, 0);
    let outcome = decide(RecordingQuality::Paused, 5, rising, rising);
    assert_eq!(outcome.quality, RecordingQuality::Minimal);
    let outcome = decide(RecordingQuality::Minimal, 5, rising, reading(Phase::Stable, true));
    assert_eq!(outcome.conserved_ticks, 0);
    assert_eq!(outcome.quality, RecordingQuality::Minimal);
}

#[test]
fn a_token_decides_on_what_its_checker_shows() {
    let mut checker = ConservationChecker::new();
    checker.register("cpu_headroom", 100.0, 10.0);
    checker.register("mem_headroom", 1000.0, 0.0);
    let mut token = ResourceToken::new(checker);
    assert_eq!(token.quality(), RecordingQuality::Full);
    assert!(!token.is_paused());
    token.observe(90, 1000);
    assert_eq!(token.decide_quality(1), RecordingQuality::Full);
    token.observe(89, 1000);
    assert_eq!(token.decide_quality(2), RecordingQuality::Reduced);
    let (cpu, mem) = token.readings();
    assert_eq!(cpu, reading(Phase::Transitioning, true));
    assert_eq!(mem, reading(Phase::Stable, false));
    token.observe(89, 999);
    assert_eq!(token.decide_quality(3), RecordingQuality::Minimal);
    assert_eq!(token.quality(), RecordingQuality::Minimal);
}

fn last_degraded_at(token: &ResourceToken) -> String {
    let shown = format!("{:?}", token);
    let from = shown.find("last_degraded_at: ").unwrap() + "last_degraded_at: ".len();
    shown[from..].chars().take_while(|c| c.is_ascii_digit()).collect()
}

#[test]
fn only_degradation_moves_its_time() {
    let mut checker = ConservationChecker::new();
    checker.register("cpu_headroom", 100.0, 10.0);
    checker.register("mem_headroom", 1000.0, 0.0);
    let mut token = ResourceToken::new(checker);
    assert_eq!(last_degraded_at(&token), "0");
    token.observe(0, 0);
    assert_eq!(token.decide_quality(7), RecordingQuality::Minimal);
    assert_eq!(last_degraded_at(&token), "7");
    token.observe(100, 0);
    assert_eq!(token.decide_quality(8), RecordingQuality::Reduced);
    assert_eq!(last_degraded_at(&token), "7");
    token.observe(0, 0);
    assert_eq!(token.decide_quality(9), RecordingQuality::Minimal);
    assert_eq!(last_degraded_at(&token), "9");
}

#[test]
fn a_token_can_be_made_over_any_checker() {
    let token = ResourceToken::new(ConservationChecker::new());
    assert_eq!(token.quality(), RecordingQuality::Full);
    assert!(!token.is_paused());
}

#[test]
fn a_token_records_and_reports_what_else_is_tracked() {
    let mut checker = ConservationChecker::new();
    checker.register("cpu_headroom", 100.0, 10.0);
    checker.register("mem_headroom", 1000.0, 0.0);
    checker.register("disk_headroom", 10.0, 0.0);
    checker.update("disk_headroom", 5.0);
    let mut token = ResourceToken::new(checker);
    assert!(token.any_violated());
    assert_eq!(token.decide_quality(1), RecordingQuality::Full);
    let (cpu, mem) = token.readings();
    assert!(!cpu.violated && !mem.violated);
}

#[test]
fn the_order_of_children_does_not_matter() {
    let own = process(10, None, 1, 10);
    let first = process(11, Some(10), 2, 20);
    let second = process(12, Some(10), 4, 40);
    let other = process(13, Some(11), 8, 80);
    let usage = Usage { cpu: 7, memory: 70 };
    assert_eq!(measure_tree(&vec![own, first, second], 10), usage);
    assert_eq!(measure_tree(&vec![second, other, first, own], 10), usage);
}

fn process(pid: u32, parent: Option<u32>, cpu: u64, memory: u64) -> ProcessSample {
    ProcessSample { pid, parent, cpu, memory }
}

#[test]
fn a_tree_is_a_process_and_its_children() {
    let samples = vec![
        process(1, None, 7, 9_999_999),
        process(12, Some(10), 20, 2048),
        process(10, Some(1), 100, 1024),
        process(13, Some(12), 3, 4096),
        process(14, Some(10), 5, 512),
    ];
    assert_eq!(measure_tree(&samples, 10), Usage { cpu: 125, memory: 3584 });
    assert_eq!(measure_tree(&samples, 12), Usage { cpu: 23, memory: 6144 });
    assert_eq!(measure_tree(&samples, 99), Usage { cpu: 0, memory: 0 });
}

#[test]
fn a_missing_process_has_no_usage_even_with_children() {
    let samples = vec![process(12, Some(10), 20, 2048)];
    assert_eq!(measure_tree(&samples, 10), Usage { cpu: 0, memory: 0 });
}

#[test]
fn usage_saturates() {
    let samples = vec![process(10, None, u64::MAX, 1), process(11, Some(10), 1, u64::MAX)];
    assert_eq!(measure_tree(&samples, 10), Usage { cpu: u64::MAX, memory: u64::MAX });
}
