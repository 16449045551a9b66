//! The clock: whole seconds since the Unix epoch, read through `chrono`.

use vstd::prelude::*;

verus! {

/// The latest reading that the clock can give: the last second of the last
/// day that `chrono` can write as a date, 31 December 262142.
pub const LATEST_READING: i64 = 8_210_266_876_799;

/// What holds of every reading of the clock: it is not before the epoch,
/// and not after the latest reading.
pub open spec fn is_clock_reading(now: i64) -> bool {
    0 <= now <= LATEST_READING
}

/// `chrono::Utc::now`, in whole seconds since the Unix epoch. `chrono`
/// takes the time that has passed since the epoch and makes it a date, so
/// the reading lies between the epoch and the last second that it can write
/// as a date; nothing else is claimed of it. `chrono` panics where the
/// system clock stands before the epoch or after that second.
#[verifier::external_body]
pub(crate) fn unix_now() -> (now: i64)
    ensures
        is_clock_reading(now),
{
    chrono::Utc::now().timestamp()
}

} // verus!
