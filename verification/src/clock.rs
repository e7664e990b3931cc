//! The clock.
//!
//! Timestamps are milliseconds since the UNIX epoch, read once per step of a
//! cache transaction.  Nothing can be promised of what the system clock
//! returns, so the reading itself is a trusted call, the conversion of the
//! reading to milliseconds is verified below, and every decision function
//! takes the finished timestamp as an argument and is verified for all of
//! its values.

use vstd::prelude::*;

verus! {

/// Relies on `std::time::SystemTime`: the time elapsed since the UNIX epoch,
/// as whole seconds and the nanosecond remainder, which is always below one
/// billion.  The result depends on the system clock, so no two calls are
/// related; aborts if the clock reads before the epoch.
#[verifier::external_body]
fn elapsed_since_epoch() -> (r: (u64, u32))
    ensures
        r.1 < 1_000_000_000,
{
    let elapsed = std::time::SystemTime::UNIX_EPOCH
        .elapsed()
        .expect("Could not retrieve UNIX timestamp");
    (elapsed.as_secs(), elapsed.subsec_nanos())
}

/// The whole milliseconds in a duration of `secs` seconds plus `nanos`
/// nanoseconds, truncated to 64 bits.
pub open spec fn spec_millis_of(secs: u64, nanos: u32) -> u64 {
    ((secs * 1000 + nanos / 1_000_000) % 0x1_0000_0000_0000_0000) as u64
}

/// Convert a duration given as whole seconds plus a nanosecond remainder to
/// whole milliseconds, truncated to 64 bits.
pub fn millis_of(secs: u64, nanos: u32) -> (r: u64)
    ensures
        r == spec_millis_of(secs, nanos),
{
    let whole: u128 = (secs as u128) * 1000 + (nanos / 1_000_000) as u128;
    let r = #[verifier::truncate] (whole as u64);
    proof {
        assert(whole as u64 == (whole % 0x1_0000_0000_0000_0000) as u64) by (bit_vector);
    }
    r
}

/// One reading of the clock: milliseconds elapsed since the UNIX epoch,
/// truncated to 64 bits by [`millis_of`].  The value is whatever the system
/// clock says; the rest of the crate is verified for every value it could
/// say.
pub fn current_timestamp() -> u64 {
    let (secs, nanos) = elapsed_since_epoch();
    millis_of(secs, nanos)
}

} // verus!
