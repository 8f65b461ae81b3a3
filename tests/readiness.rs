use codex_sidecar::readiness::{Directive, Phase, ReadinessDetector, READY_MARKER, SETTLE_DELAY_SECS};

#[test]
fn scenario_marker_on_third_line() {
    let mut d = ReadinessDetector::new();
    assert_eq!(d.observe("starting"), Directive::ReadNext);
    assert!(!d.is_ready());
    assert_eq!(d.observe("Bootstrapped 50%"), Directive::ReadNext);
    assert!(!d.is_ready());
    assert_eq!(d.phase(), Phase::Watching);
    assert_eq!(d.observe("Bootstrapped 100%"), Directive::Settle(5));
    assert!(!d.is_ready());
    assert_eq!(d.phase(), Phase::Settling);
    assert!(d.settle_elapsed());
    assert!(d.is_ready());
}

#[test]
fn lines_without_marker_never_ready() {
    let mut d = ReadinessDetector::new();
    let lines = ["", "Bootstrapped", "Bootstrapped 10%", "bootstrapped 100%", "Bootstrapped 100", "100%"];
    for line in lines.iter() {
        assert_eq!(d.observe(line), Directive::ReadNext);
        assert!(!d.settle_elapsed());
        assert!(!d.is_ready());
    }
    assert_eq!(d.phase(), Phase::Watching);
}

#[test]
fn settle_before_marker_does_nothing() {
    let mut d = ReadinessDetector::new();
    assert!(!d.settle_elapsed());
    assert_eq!(d.phase(), Phase::Watching);
    assert_eq!(d.observe("Bootstrapped 100%"), Directive::Settle(SETTLE_DELAY_SECS));
    assert!(!d.is_ready());
    assert!(d.settle_elapsed());
    assert!(d.is_ready());
}

#[test]
fn marker_inside_longer_line() {
    let mut d = ReadinessDetector::new();
    assert_eq!(d.observe("INF 2024 Bootstrapped 100% (node up) topics=\"x\""), Directive::Settle(5));
    assert_eq!(d.phase(), Phase::Settling);
}

#[test]
fn lines_after_marker_are_not_consumed() {
    let mut d = ReadinessDetector::new();
    assert_eq!(d.observe(READY_MARKER), Directive::Settle(5));
    assert_eq!(d.observe("more output"), Directive::Stop);
    assert_eq!(d.observe(READY_MARKER), Directive::Stop);
    assert_eq!(d.phase(), Phase::Settling);
    assert!(d.settle_elapsed());
    assert_eq!(d.observe(READY_MARKER), Directive::Stop);
    assert!(d.settle_elapsed());
    assert!(d.is_ready());
}

#[test]
fn settle_delay_is_five_seconds() {
    assert_eq!(SETTLE_DELAY_SECS, 5);
    assert_eq!(READY_MARKER, "Bootstrapped 100%");
}
