//! Control loop state machine: one state value per watched line, advanced
//! once per poll tick. Each tick feeds the sampled level through the two
//! polarity trackers, decides whether a notification is due, and hands the
//! caller an action to carry out. Send outcomes are reported back and update
//! the throttle bookkeeping, including the cross-reset rule: a confirmed
//! notification of one event type clears the other type's throttle state.

use vstd::prelude::*;

use crate::gate::spec_due;
use crate::qualifier::{Level, QualificationState, spec_observe};

verus! {

/// Throttle bookkeeping for one event type.
pub struct ThrottleState {
    /// When a notification of this type last succeeded, if ever.
    pub last_success: Option<u64>,
    /// When a notification of this type last failed, if ever.
    pub last_failure: Option<u64>,
}

impl ThrottleState {
    /// No send attempt on record.
    pub open spec fn spec_is_empty(self) -> bool {
        self.last_success is None && self.last_failure is None
    }

    /// Fresh bookkeeping with no send attempt on record.
    pub fn new() -> (r: ThrottleState)
        ensures
            r.spec_is_empty(),
    {
        ThrottleState { last_success: None, last_failure: None }
    }
}

/// The two event types a line can notify about.
#[derive(Clone, Copy, PartialEq, Eq, Structural, Debug)]
pub enum EventKind {
    /// The line has been HIGH for at least the hold duration.
    Alarm,
    /// The line has returned to LOW, after an alarm, for at least the hold
    /// duration.
    Restored,
}

/// What the caller should do after a tick.
#[derive(Clone, Copy, PartialEq, Eq, Structural, Debug)]
pub enum TickAction {
    /// Nothing is due; sleep until the next poll.
    Wait,
    /// An alarm notification is due now.
    SendAlarm,
    /// A restored notification is due now.
    SendRestored,
}

/// Whole per-line state of the control loop.
pub struct MonitorState {
    /// Tracker for runs of HIGH samples.
    pub high: QualificationState,
    /// Tracker for runs of LOW samples.
    pub low: QualificationState,
    /// An alarm episode is open: HIGH has qualified, and no restored
    /// notification has succeeded since.
    pub alarm_open: bool,
    /// Throttle bookkeeping for alarm notifications.
    pub alarm: ThrottleState,
    /// Throttle bookkeeping for restored notifications.
    pub restored: ThrottleState,
}

/// The state after one tick, before any send outcome is known.
pub open spec fn spec_tick_state(pre: MonitorState, level: Level, now: u64) -> MonitorState {
    let high = QualificationState {
        since: spec_observe(pre.high.since, level is High, now),
        hold: pre.high.hold,
    };
    let low = QualificationState {
        since: spec_observe(pre.low.since, level is Low, now),
        hold: pre.low.hold,
    };
    MonitorState {
        high,
        low,
        alarm_open: pre.alarm_open || high.spec_qualified(now),
        ..pre
    }
}

/// The action one tick decides on, given the state the tick produced.
pub open spec fn spec_tick_action(
    post: MonitorState,
    now: u64,
    time_between: u64,
    time_between_retry: u64,
) -> TickAction {
    if post.high.spec_qualified(now) {
        if spec_due(
            now,
            post.alarm.last_success,
            post.alarm.last_failure,
            time_between,
            time_between_retry,
        ) {
            TickAction::SendAlarm
        } else {
            TickAction::Wait
        }
    } else if post.low.spec_qualified(now) && post.alarm_open {
        if spec_due(
            now,
            post.restored.last_success,
            post.restored.last_failure,
            time_between,
            time_between_retry,
        ) {
            TickAction::SendRestored
        } else {
            TickAction::Wait
        }
    } else {
        TickAction::Wait
    }
}

/// The state after a send outcome for `kind` is recorded at `now`. Any
/// success sets the type's success timestamp, clears its failure timestamp,
/// and cross-resets the opposite type's bookkeeping entirely; a restored
/// success also closes the alarm episode. A send with no successful target
/// only sets the type's failure timestamp.
pub open spec fn spec_record(
    pre: MonitorState,
    kind: EventKind,
    any_success: bool,
    now: u64,
) -> MonitorState {
    if any_success {
        match kind {
            EventKind::Alarm => MonitorState {
                alarm: ThrottleState { last_success: Some(now), last_failure: None },
                restored: ThrottleState { last_success: None, last_failure: None },
                ..pre
            },
            EventKind::Restored => MonitorState {
                restored: ThrottleState { last_success: Some(now), last_failure: None },
                alarm: ThrottleState { last_success: None, last_failure: None },
                alarm_open: false,
                ..pre
            },
        }
    } else {
        match kind {
            EventKind::Alarm => MonitorState {
                alarm: ThrottleState { last_failure: Some(now), ..pre.alarm },
                ..pre
            },
            EventKind::Restored => MonitorState {
                restored: ThrottleState { last_failure: Some(now), ..pre.restored },
                ..pre
            },
        }
    }
}

impl MonitorState {
    /// A fresh line monitor: no run in progress, no alarm episode open, no
    /// send attempt on record.
    pub fn new(hold: u64) -> (r: MonitorState)
        ensures
            r.high.since is None,
            r.low.since is None,
            r.high.hold == hold,
            r.low.hold == hold,
            !r.alarm_open,
            r.alarm.spec_is_empty(),
            r.restored.spec_is_empty(),
    {
        MonitorState {
            high: QualificationState::new(hold),
            low: QualificationState::new(hold),
            alarm_open: false,
            alarm: ThrottleState::new(),
            restored: ThrottleState::new(),
        }
    }

    /// One poll tick: record the sampled level at `now` in both polarity
    /// trackers, and decide whether a notification is due. The throttle
    /// timestamps are never touched here — only a send outcome, reported
    /// through `record_outcome`, changes them — so a flapping line cannot
    /// reset the retry clock.
    pub fn tick(&mut self, level: Level, now: u64, time_between: u64, time_between_retry: u64) -> (action:
        TickAction)
        ensures
            *final(self) == spec_tick_state(*old(self), level, now),
            action == spec_tick_action(*final(self), now, time_between, time_between_retry),
            !(final(self).high.spec_qualified(now) && final(self).low.spec_qualified(now)),
    {
        self.high.observe(level == Level::High, now);
        self.low.observe(level == Level::Low, now);

        let high_qualified = self.high.qualified(now);
        if high_qualified {
            self.alarm_open = true;
        }

        if high_qualified {
            if crate::gate::should_send_alarm_batsign(
                now,
                self.alarm.last_success,
                self.alarm.last_failure,
                time_between,
                time_between_retry,
            ) {
                TickAction::SendAlarm
            } else {
                TickAction::Wait
            }
        } else if self.low.qualified(now) && self.alarm_open {
            if crate::gate::should_send_restored_batsign(
                now,
                self.restored.last_success,
                self.restored.last_failure,
                time_between,
                time_between_retry,
            ) {
                TickAction::SendRestored
            } else {
                TickAction::Wait
            }
        } else {
            TickAction::Wait
        }
    }

    /// Record the outcome of a fanned-out send of a `kind` notification:
    /// `any_success` says whether at least one target accepted it.
    pub fn record_outcome(&mut self, kind: EventKind, any_success: bool, now: u64)
        ensures
            *final(self) == spec_record(*old(self), kind, any_success, now),
            final(self).high == old(self).high,
            final(self).low == old(self).low,
            !any_success ==> final(self).alarm.last_success == old(self).alarm.last_success
                && final(self).restored.last_success == old(self).restored.last_success
                && final(self).alarm_open == old(self).alarm_open,
    {
        if any_success {
            match kind {
                EventKind::Alarm => {
                    self.alarm = ThrottleState { last_success: Some(now), last_failure: None };
                    self.restored = ThrottleState { last_success: None, last_failure: None };
                },
                EventKind::Restored => {
                    self.restored = ThrottleState { last_success: Some(now), last_failure: None };
                    self.alarm = ThrottleState { last_success: None, last_failure: None };
                    self.alarm_open = false;
                },
            }
        } else {
            match kind {
                EventKind::Alarm => {
                    self.alarm.last_failure = Some(now);
                },
                EventKind::Restored => {
                    self.restored.last_failure = Some(now);
                },
            }
        }
    }
}

/// Cross-reset reopens the opposite gate: after a successful alarm
/// notification, the restored bookkeeping is empty, and a restored due-check
/// at any later time answers true, whatever restored throttle history the
/// state held before.
pub proof fn lemma_cross_reset_reopens_restored(
    pre: MonitorState,
    now: u64,
    later: u64,
    time_between: u64,
    time_between_retry: u64,
)
    ensures
        spec_record(pre, EventKind::Alarm, true, now).restored.spec_is_empty(),
        spec_due(
            later,
            spec_record(pre, EventKind::Alarm, true, now).restored.last_success,
            spec_record(pre, EventKind::Alarm, true, now).restored.last_failure,
            time_between,
            time_between_retry,
        ),
{
}

/// The same in the other direction: a successful restored notification
/// clears the alarm bookkeeping, so the next alarm due-check answers true.
pub proof fn lemma_cross_reset_reopens_alarm(
    pre: MonitorState,
    now: u64,
    later: u64,
    time_between: u64,
    time_between_retry: u64,
)
    ensures
        spec_record(pre, EventKind::Restored, true, now).alarm.spec_is_empty(),
        spec_due(
            later,
            spec_record(pre, EventKind::Restored, true, now).alarm.last_success,
            spec_record(pre, EventKind::Restored, true, now).alarm.last_failure,
            time_between,
            time_between_retry,
        ),
{
}

} // verus!
