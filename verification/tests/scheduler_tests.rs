use tray_monitor::scheduler::PeriodicRefreshScheduler;

#[test]
fn refresh_gating_becomes_true_at_the_interval_and_stays() {
    let s = PeriodicRefreshScheduler::new(0);
    assert!(!s.is_due(0, 5));
    assert!(!s.is_due(1_000, 5));
    assert!(!s.is_due(4_000, 5));
    assert!(s.is_due(5_000, 5));
    assert!(s.is_due(6_000, 5));
}

#[test]
fn reset_restarts_the_clock() {
    let mut s = PeriodicRefreshScheduler::new(0);
    assert!(s.is_due(5_000, 5));
    s.reset(5_000);
    assert!(!s.is_due(5_001, 5));
    assert!(!s.is_due(9_999, 5));
    assert!(s.is_due(10_000, 5));
}

#[test]
fn zero_interval_is_always_due() {
    let s = PeriodicRefreshScheduler::new(7);
    assert!(s.is_due(7, 0));
    assert!(s.is_due(8, 0));
}

#[test]
fn an_overflowing_interval_never_comes_due() {
    let s = PeriodicRefreshScheduler::new(0);
    assert!(!s.is_due(u64::MAX - 1, u64::MAX));
}
