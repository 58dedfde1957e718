use xi_launcher::progress::{capped_sum, ProgressGate, REPORT_PERIOD_MS};

#[test]
fn sums_are_capped() {
    assert_eq!(capped_sum(0, 0), 0);
    assert_eq!(capped_sum(2, 3), 5);
    assert_eq!(capped_sum(u64::MAX, 0), u64::MAX);
    assert_eq!(capped_sum(u64::MAX, 1), u64::MAX);
    assert_eq!(capped_sum(u64::MAX - 1, 1), u64::MAX);
    assert_eq!(capped_sum(u64::MAX / 2 + 1, u64::MAX / 2 + 1), u64::MAX);
}

#[test]
fn one_report_a_period() {
    assert_eq!(REPORT_PERIOD_MS, 1000);
    let mut gate = ProgressGate::new();
    assert!(gate.offer(5_000));
    assert_eq!(gate.next_report, 6_000);
    assert!(!gate.offer(5_000));
    assert!(!gate.offer(5_999));
    assert_eq!(gate.next_report, 6_000);
    assert!(gate.offer(6_000));
    assert_eq!(gate.next_report, 7_000);
    assert!(gate.offer(20_000));
    assert!(!gate.offer(20_500));
}

#[test]
fn first_report_passes_at_any_time() {
    let mut gate = ProgressGate::new();
    assert!(gate.offer(0));
    assert!(!gate.offer(999));
    assert!(gate.offer(1000));
}

#[test]
fn clock_at_its_end_keeps_reporting() {
    let mut gate = ProgressGate::new();
    assert!(gate.offer(u64::MAX - 10));
    assert_eq!(gate.next_report, u64::MAX - 10);
    assert!(gate.offer(u64::MAX - 10));
    assert!(gate.offer(u64::MAX));
    assert_eq!(gate.next_report, u64::MAX);
}
