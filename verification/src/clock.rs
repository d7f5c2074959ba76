use vstd::prelude::*;

verus! {

/// No reading of the clock reaches this many seconds: `chrono` counts days
/// in 32 bits, and this is 2^31 days.
pub const CLOCK_LIMIT: i64 = 185_542_587_187_200;

/// Whether `now` is an instant that the clock can show.
pub open spec fn clock_can_show(now: int) -> bool {
    0 <= now < CLOCK_LIMIT
}

/// The current time in whole seconds since the Unix epoch, read through
/// `chrono::Utc::now` and `DateTime::timestamp`. Trusted: `Utc::now`
/// measures the system clock as a duration since the epoch, so the reading
/// is not negative, and it builds its result with
/// `DateTime::from_timestamp`, which refuses a day number above
/// `i32::MAX`, so the reading lies below that many days. Nothing else is
/// known of it: two readings may differ in either direction. On a clock
/// set before 1970 `Utc::now` does not return.
#[verifier::external_body]
pub(crate) fn unix_now() -> (now: i64)
    ensures
        0 <= now < CLOCK_LIMIT,
{
    chrono::Utc::now().timestamp()
}

} // verus!
