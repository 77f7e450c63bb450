//! Monitor for a pellet-burner alarm contact on a GPIO line.
//!
//! The crate holds the logic that turns raw level samples into qualified
//! state-change events (debouncing with a hold timer), decides when an
//! outbound notification is due under a throttle policy, renders the
//! notification message from a template, and fans a due notification out to
//! every configured endpoint. Reading the pin, sleeping between polls and the
//! other plumbing around the loop live in the surrounding program.
//!
//! Points in time are carried as milliseconds of a monotonic clock; durations
//! as milliseconds as well.

pub mod config;
pub mod control;
pub mod defaults;
pub mod dispatcher;
pub mod gate;
pub mod message;
pub mod settings;
pub mod qualifier;
pub mod text;

use vstd::prelude::*;

verus! {

/// Milliseconds elapsed from `earlier` to `now`, zero when `earlier` lies in
/// the future (mirroring how a monotonic clock reports elapsed time).
pub open spec fn spec_elapsed(now: u64, earlier: u64) -> u64 {
    if now >= earlier {
        (now - earlier) as u64
    } else {
        0u64
    }
}

/// Milliseconds elapsed from `earlier` to `now`, saturating at zero.
pub fn elapsed(now: u64, earlier: u64) -> (r: u64)
    ensures
        r == spec_elapsed(now, earlier),
{
    if now >= earlier {
        now - earlier
    } else {
        0
    }
}

} // verus!
