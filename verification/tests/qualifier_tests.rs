use pellx_monitor::qualifier::QualificationState;

#[test]
fn qualifies_exactly_at_hold() {
    let mut q = QualificationState::new(10_000);
    q.observe(true, 0);
    assert!(!q.qualified(9_999));
    assert!(q.qualified(10_000));
    assert!(q.qualified(50_000));
}

#[test]
fn continued_matching_samples_keep_the_run_start() {
    let mut q = QualificationState::new(10_000);
    q.observe(true, 1_000);
    q.observe(true, 5_000);
    q.observe(true, 9_000);
    assert_eq!(q.since, Some(1_000));
    assert!(q.qualified(11_000));
}

#[test]
fn one_opposite_sample_resets_the_run() {
    let mut q = QualificationState::new(10_000);
    q.observe(true, 0);
    assert!(q.qualified(20_000));
    q.observe(false, 21_000);
    assert_eq!(q.since, None);
    assert!(!q.qualified(100_000));
    // The next matching sample starts a fresh run.
    q.observe(true, 22_000);
    assert_eq!(q.since, Some(22_000));
    assert!(!q.qualified(23_000));
    assert!(q.qualified(32_000));
}

#[test]
fn zero_hold_qualifies_immediately() {
    let mut q = QualificationState::new(0);
    q.observe(true, 7);
    assert!(q.qualified(7));
}

#[test]
fn fresh_state_is_never_qualified() {
    let q = QualificationState::new(0);
    assert!(!q.qualified(1_000_000));
}
