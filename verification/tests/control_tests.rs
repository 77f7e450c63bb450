use pellx_monitor::control::{EventKind, MonitorState, TickAction};
use pellx_monitor::qualifier::Level;

const SEC: u64 = 1_000;
const MIN: u64 = 60_000;

#[test]
fn high_qualifies_after_hold_and_first_send_is_due() {
    // hold=10s, no prior sends; HIGH continuously for 10s qualifies, and
    // the first due-check answers true.
    let mut st = MonitorState::new(10 * SEC);
    for t in 0..10u64 {
        let action = st.tick(Level::High, t * SEC, 30 * MIN, 5 * MIN);
        assert_eq!(action, TickAction::Wait);
    }
    let action = st.tick(Level::High, 10 * SEC, 30 * MIN, 5 * MIN);
    assert_eq!(action, TickAction::SendAlarm);
}

#[test]
fn flapping_line_never_qualifies_and_touches_no_throttle_state() {
    // LOW -> HIGH -> LOW within 3s with hold=10s: never qualifies, nothing
    // is sent, the throttle timestamps stay untouched.
    let mut st = MonitorState::new(10 * SEC);
    assert_eq!(st.tick(Level::Low, 0, 30 * MIN, 5 * MIN), TickAction::Wait);
    assert_eq!(st.tick(Level::High, 1 * SEC, 30 * MIN, 5 * MIN), TickAction::Wait);
    assert_eq!(st.tick(Level::High, 2 * SEC, 30 * MIN, 5 * MIN), TickAction::Wait);
    assert_eq!(st.tick(Level::Low, 3 * SEC, 30 * MIN, 5 * MIN), TickAction::Wait);
    assert!(st.alarm.last_success.is_none());
    assert!(st.alarm.last_failure.is_none());
    assert!(st.restored.last_success.is_none());
    assert!(st.restored.last_failure.is_none());
    assert!(!st.alarm_open);
}

#[test]
fn opposite_sample_resets_qualification() {
    let mut st = MonitorState::new(10 * SEC);
    st.tick(Level::High, 0, 30 * MIN, 5 * MIN);
    assert_eq!(st.high.since, Some(0));
    st.tick(Level::Low, 5 * SEC, 30 * MIN, 5 * MIN);
    assert_eq!(st.high.since, None);
    // A fresh HIGH run starts from its own first sample.
    st.tick(Level::High, 6 * SEC, 30 * MIN, 5 * MIN);
    assert_eq!(st.high.since, Some(6 * SEC));
    let action = st.tick(Level::High, 15 * SEC, 30 * MIN, 5 * MIN);
    assert_eq!(action, TickAction::Wait);
    let action = st.tick(Level::High, 16 * SEC, 30 * MIN, 5 * MIN);
    assert_eq!(action, TickAction::SendAlarm);
}

#[test]
fn partial_success_records_success_and_clears_failure() {
    // Any successful target counts as success: last_success set,
    // last_failure cleared.
    let mut st = MonitorState::new(10 * SEC);
    st.tick(Level::High, 0, 30 * MIN, 5 * MIN);
    st.record_outcome(EventKind::Alarm, false, 20 * SEC);
    assert_eq!(st.alarm.last_failure, Some(20 * SEC));
    assert_eq!(st.alarm.last_success, None);
    st.record_outcome(EventKind::Alarm, true, 25 * SEC);
    assert_eq!(st.alarm.last_success, Some(25 * SEC));
    assert_eq!(st.alarm.last_failure, None);
}

#[test]
fn failed_send_is_retried_after_retry_interval() {
    // First send fails at t=0 (retry 5 min): not due at 4 min, due at
    // 5 min; a success then clears the failure timestamp.
    let mut st = MonitorState::new(10 * SEC);
    let mut t: u64 = 0;
    while t <= 10 * SEC {
        st.tick(Level::High, t, 30 * MIN, 5 * MIN);
        t += SEC;
    }
    let due_at = 11 * SEC;
    assert_eq!(st.tick(Level::High, due_at, 30 * MIN, 5 * MIN), TickAction::SendAlarm);
    st.record_outcome(EventKind::Alarm, false, due_at);
    assert_eq!(
        st.tick(Level::High, due_at + 4 * MIN, 30 * MIN, 5 * MIN),
        TickAction::Wait
    );
    assert_eq!(
        st.tick(Level::High, due_at + 5 * MIN, 30 * MIN, 5 * MIN),
        TickAction::SendAlarm
    );
    st.record_outcome(EventKind::Alarm, true, due_at + 5 * MIN);
    assert_eq!(st.alarm.last_failure, None);
    assert_eq!(st.alarm.last_success, Some(due_at + 5 * MIN));
}

#[test]
fn cross_reset_clears_opposite_event_state() {
    // After a successful alarm notification, the restored bookkeeping is
    // empty, whatever it held before, so the next restored due-check
    // answers true.
    let mut st = MonitorState::new(10 * SEC);
    // Plant stale restored history.
    st.record_outcome(EventKind::Restored, false, 1 * SEC);
    assert_eq!(st.restored.last_failure, Some(1 * SEC));
    st.record_outcome(EventKind::Alarm, true, 2 * SEC);
    assert_eq!(st.restored.last_success, None);
    assert_eq!(st.restored.last_failure, None);
    assert_eq!(st.alarm.last_success, Some(2 * SEC));
}

#[test]
fn full_episode_alarm_then_restored() {
    let tbb = 30 * MIN;
    let tbbr = 5 * MIN;
    let mut st = MonitorState::new(2 * SEC);
    // HIGH long enough to qualify.
    st.tick(Level::High, 0, tbb, tbbr);
    let action = st.tick(Level::High, 2 * SEC, tbb, tbbr);
    assert_eq!(action, TickAction::SendAlarm);
    assert!(st.alarm_open);
    st.record_outcome(EventKind::Alarm, true, 2 * SEC);
    // Back to LOW; restored fires once the LOW run qualifies.
    assert_eq!(st.tick(Level::Low, 3 * SEC, tbb, tbbr), TickAction::Wait);
    let action = st.tick(Level::Low, 5 * SEC, tbb, tbbr);
    assert_eq!(action, TickAction::SendRestored);
    st.record_outcome(EventKind::Restored, true, 5 * SEC);
    assert!(!st.alarm_open);
    // With the episode closed, a qualified LOW does not notify again.
    assert_eq!(st.tick(Level::Low, 10 * SEC, tbb, tbbr), TickAction::Wait);
    // A later fresh alarm is due at once: cross-reset cleared the clock.
    st.tick(Level::High, 20 * SEC, tbb, tbbr);
    let action = st.tick(Level::High, 22 * SEC, tbb, tbbr);
    assert_eq!(action, TickAction::SendAlarm);
}

#[test]
fn failed_restored_send_is_retried_after_retry_interval() {
    let tbb = 30 * MIN;
    let tbbr = 5 * MIN;
    let mut st = MonitorState::new(2 * SEC);
    st.tick(Level::High, 0, tbb, tbbr);
    assert_eq!(st.tick(Level::High, 2 * SEC, tbb, tbbr), TickAction::SendAlarm);
    st.record_outcome(EventKind::Alarm, true, 2 * SEC);
    st.tick(Level::Low, 3 * SEC, tbb, tbbr);
    assert_eq!(st.tick(Level::Low, 5 * SEC, tbb, tbbr), TickAction::SendRestored);
    st.record_outcome(EventKind::Restored, false, 5 * SEC);
    // Still within the retry interval: wait.
    assert_eq!(
        st.tick(Level::Low, 5 * SEC + 4 * MIN, tbb, tbbr),
        TickAction::Wait
    );
    // Retry once the retry interval has passed.
    assert_eq!(
        st.tick(Level::Low, 5 * SEC + 5 * MIN, tbb, tbbr),
        TickAction::SendRestored
    );
    st.record_outcome(EventKind::Restored, true, 5 * SEC + 5 * MIN);
    assert!(!st.alarm_open);
    assert_eq!(st.restored.last_failure, None);
}

#[test]
fn not_due_tick_changes_no_throttle_state() {
    let mut st = MonitorState::new(1 * SEC);
    st.tick(Level::High, 0, 30 * MIN, 5 * MIN);
    assert_eq!(st.tick(Level::High, 1 * SEC, 30 * MIN, 5 * MIN), TickAction::SendAlarm);
    st.record_outcome(EventKind::Alarm, true, 1 * SEC);
    // Still qualified but throttled: nothing changes.
    assert_eq!(st.tick(Level::High, 2 * SEC, 30 * MIN, 5 * MIN), TickAction::Wait);
    assert_eq!(st.alarm.last_success, Some(1 * SEC));
    assert_eq!(st.alarm.last_failure, None);
}
