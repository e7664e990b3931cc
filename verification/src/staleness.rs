//! The staleness evaluator.
//!
//! A stored record is stale exactly when more than `period` milliseconds have
//! elapsed between its timestamp and `now`.  A clock that reads earlier than
//! the stored timestamp yields no meaningful elapsed time; such a record is
//! deliberately treated as fresh rather than letting the subtraction wrap.

use vstd::prelude::*;

verus! {

/// A record written at `timestamp` is stale at `now` when strictly more than
/// `period` milliseconds have passed.  When `now` is earlier than
/// `timestamp`, the elapsed time is undefined and the record counts as fresh.
pub open spec fn spec_is_stale(timestamp: u64, now: u64, period: u64) -> bool {
    now > timestamp && now - timestamp > period
}

/// Decide whether a record written at `timestamp` must be refreshed before
/// it is served at `now`, given a reuse window of `period` milliseconds.
pub fn is_stale(timestamp: u64, now: u64, period: u64) -> (r: bool)
    ensures
        r == spec_is_stale(timestamp, now, period),
{
    now > timestamp && now - timestamp > period
}

/// Law: the reuse window is closed at its boundary.  A record exactly
/// `period` milliseconds old is still fresh; one millisecond later it is
/// stale.  In particular a period of zero means a record is never reused
/// after any positive elapsed time, and an unchanged clock leaves it fresh.
pub proof fn lemma_staleness_boundary(timestamp: u64, period: u64)
    requires
        timestamp + period + 1 <= u64::MAX,
    ensures
        !spec_is_stale(timestamp, (timestamp + period) as u64, period),
        spec_is_stale(timestamp, (timestamp + period + 1) as u64, period),
{
}

/// Law: clock skew never marks a record stale.  Whenever the clock reads no
/// later than the stored timestamp, the record is fresh, whatever the period.
pub proof fn lemma_skew_is_fresh(timestamp: u64, now: u64, period: u64)
    requires
        now <= timestamp,
    ensures
        !spec_is_stale(timestamp, now, period),
{
}

} // verus!
