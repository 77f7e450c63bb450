//! Notification gate: decides, from the timestamps of the last successful and
//! last failed send and the two configured intervals, whether a notification
//! is due now. One algorithm serves both event types.
//!
//! A recorded failure always takes precedence: once a send has failed, the
//! (normally shorter) retry interval governs, regardless of how long ago the
//! last success was. With no failure on record, the normal interval since the
//! last success governs; with no history at all, a notification is due at
//! once.

use vstd::prelude::*;

use crate::spec_elapsed;

verus! {

/// Whether a notification is due at `now`, for either event type.
///
/// Failure takes precedence over success; with neither on record the
/// notification is due immediately.
pub open spec fn spec_due(
    now: u64,
    last: Option<u64>,
    last_failed: Option<u64>,
    time_between: u64,
    time_between_retry: u64,
) -> bool {
    match last_failed {
        Some(f) => spec_elapsed(now, f) >= time_between_retry,
        None => match last {
            Some(l) => spec_elapsed(now, l) >= time_between,
            None => true,
        },
    }
}

/// Determines if an alarm notification should be sent, based on the last
/// successful and failed timestamps (milliseconds of a monotonic clock).
pub fn should_send_alarm_batsign(
    now: u64,
    last: Option<u64>,
    last_failed: Option<u64>,
    time_between_batsigns: u64,
    time_between_batsigns_retry: u64,
) -> (due: bool)
    ensures
        due == spec_due(now, last, last_failed, time_between_batsigns, time_between_batsigns_retry),
{
    if let Some(last_failed) = last_failed {
        return crate::elapsed(now, last_failed) >= time_between_batsigns_retry;
    }

    if let Some(last) = last {
        crate::elapsed(now, last) >= time_between_batsigns
    } else {
        true
    }
}

/// Determines if a restored notification should be sent, based on the last
/// successful and failed timestamps (milliseconds of a monotonic clock). The
/// gate is the same as the alarm gate: the two event types keep separate
/// timestamps, not separate policies.
pub fn should_send_restored_batsign(
    now: u64,
    last: Option<u64>,
    last_failed: Option<u64>,
    time_between_batsigns: u64,
    time_between_batsigns_retry: u64,
) -> (due: bool)
    ensures
        due == spec_due(now, last, last_failed, time_between_batsigns, time_between_batsigns_retry),
{
    should_send_alarm_batsign(
        now,
        last,
        last_failed,
        time_between_batsigns,
        time_between_batsigns_retry,
    )
}

/// Once due at some time, a notification stays due at every later time, until
/// a send outcome updates the timestamps.
pub proof fn lemma_due_monotonic(
    now: u64,
    later: u64,
    last: Option<u64>,
    last_failed: Option<u64>,
    time_between: u64,
    time_between_retry: u64,
)
    requires
        now <= later,
        spec_due(now, last, last_failed, time_between, time_between_retry),
    ensures
        spec_due(later, last, last_failed, time_between, time_between_retry),
{
}

/// With both a success and a failure on record, the due-check depends only on
/// the failure timestamp and the retry interval: the success timestamp and
/// the normal interval do not enter into it.
pub proof fn lemma_due_failure_takes_precedence(
    now: u64,
    last_a: u64,
    last_b: u64,
    failed: u64,
    time_between_a: u64,
    time_between_b: u64,
    time_between_retry: u64,
)
    ensures
        spec_due(now, Some(last_a), Some(failed), time_between_a, time_between_retry)
            == spec_due(now, Some(last_b), Some(failed), time_between_b, time_between_retry),
        spec_due(now, Some(last_a), Some(failed), time_between_a, time_between_retry)
            == (spec_elapsed(now, failed) >= time_between_retry),
{
}

} // verus!
