//! The wall clock, read as whole seconds since the Unix epoch.

use vstd::prelude::*;

verus! {

/// No reading of the clock is later than this: `chrono` holds no time past
/// the year 262142, which ends before this many seconds have passed.
pub const LATEST_CLOCK_READING: i64 = 0x7ff_ffff_ffff;

/// Whether `now` is a time that the clock can show.
pub open spec fn clock_reading(now: int) -> bool {
    0 <= now <= LATEST_CLOCK_READING
}

/// Calls `chrono::Utc::now` and takes its `timestamp`. Trusted: nothing is
/// claimed of the value but its range. It does not lie before the epoch,
/// which `Utc::now` refuses to return, nor after the last time that a
/// `chrono::DateTime` can hold.
#[verifier::external_body]
pub(crate) fn unix_now() -> (now: i64)
    ensures
        clock_reading(now as int),
{
    chrono::Utc::now().timestamp()
}

} // verus!
