//! The wall clock.

use vstd::prelude::*;

verus! {

/// Microseconds in one second.
pub const MICROS_PER_SECOND: i64 = 1_000_000;

/// The current time in microseconds since the Unix epoch, read with
/// `chrono::Utc::now` and `DateTime::timestamp_micros`. `Utc::now` does not
/// return for a clock set before the epoch, so the reading is never negative.
#[verifier::external_body]
pub(crate) fn now_micros() -> (now: i64)
    ensures
        now >= 0,
{
    chrono::Utc::now().timestamp_micros()
}

/// Whether the clock can read `seconds` whole seconds: a reading is a
/// number of microseconds that is not negative and fits `i64`.
pub open spec fn clock_reads(seconds: int) -> bool {
    0 <= seconds <= i64::MAX / MICROS_PER_SECOND
}

/// The whole seconds in a reading of the clock.
pub fn seconds_of(micros: i64) -> (seconds: i64)
    requires
        micros >= 0,
    ensures
        seconds == micros / MICROS_PER_SECOND,
        0 <= seconds <= micros,
        clock_reads(seconds as int),
{
    micros / MICROS_PER_SECOND
}

} // verus!
