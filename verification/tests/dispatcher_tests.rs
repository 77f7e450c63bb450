use pellx_monitor::dispatcher::{any_success, classify_status, send_batsign, Outcome};

#[test]
fn status_codes_are_classified_by_2xx() {
    assert_eq!(classify_status(200), Outcome::Success(200));
    assert_eq!(classify_status(204), Outcome::Success(204));
    assert_eq!(classify_status(299), Outcome::Success(299));
    assert_eq!(classify_status(199), Outcome::Rejected(199));
    assert_eq!(classify_status(300), Outcome::Rejected(300));
    assert_eq!(classify_status(404), Outcome::Rejected(404));
    assert_eq!(classify_status(500), Outcome::Rejected(500));
}

#[test]
fn any_success_finds_a_success_among_failures() {
    // One target rejected (HTTP 500), one successful (HTTP 200): the
    // overall outcome is a partial success, and a success it is.
    let outcomes = vec![Outcome::Rejected(500), Outcome::Success(200)];
    assert!(any_success(&outcomes));
    let outcomes = vec![
        Outcome::Unreachable("connection refused".to_string()),
        Outcome::Success(201),
    ];
    assert!(any_success(&outcomes));
}

#[test]
fn any_success_false_when_every_target_failed() {
    let outcomes = vec![
        Outcome::Rejected(500),
        Outcome::Unreachable("timeout".to_string()),
    ];
    assert!(!any_success(&outcomes));
    assert!(!any_success(&Vec::new()));
    assert!(!any_success(&vec![Outcome::WouldSend]));
}

#[test]
fn dry_run_sends_nothing_and_reports_every_target() {
    let client = reqwest::blocking::Client::new();
    let urls = vec![
        "https://example.invalid/a".to_string(),
        "https://example.invalid/b".to_string(),
        "https://example.invalid/c".to_string(),
    ];
    let msg = "Subject: test\n".to_string();
    let outcomes = send_batsign(&client, &urls, &msg, true);
    assert_eq!(outcomes.len(), 3);
    for o in &outcomes {
        assert_eq!(*o, Outcome::WouldSend);
    }
}

#[test]
fn unreachable_target_does_not_stop_the_fan_out() {
    // Both targets point at closed local ports: each is attempted, each
    // yields its own outcome, and the first failure does not cut the
    // fan-out short.
    let client = reqwest::blocking::Client::builder()
        .timeout(std::time::Duration::from_secs(2))
        .build()
        .unwrap();
    let urls = vec![
        "http://127.0.0.1:1/".to_string(),
        "http://127.0.0.1:1/other".to_string(),
    ];
    let msg = "Subject: test\n".to_string();
    let outcomes = send_batsign(&client, &urls, &msg, false);
    assert_eq!(outcomes.len(), 2);
    for o in &outcomes {
        assert!(matches!(o, Outcome::Unreachable(_)));
    }
    assert!(!any_success(&outcomes));
}
