//! The wall clock.

use vstd::prelude::*;

verus! {

/// Whether `millis` is a value that reading the clock with `now_millis`
/// returns.
pub closed spec fn is_clock_reading(millis: i64) -> bool {
    call_ensures(now_millis, (), millis)
}

/// Milliseconds since the Unix epoch, read from `chrono::Utc::now()` and
/// `DateTime::timestamp_millis`. The value rests on the machine's clock, so
/// nothing is claimed of it.
#[verifier::external_body]
pub(crate) fn now_millis() -> (millis: i64) {
    chrono::Utc::now().timestamp_millis()
}

/// Reads the clock: milliseconds since the Unix epoch, as `now_millis`
/// returns them.
pub(crate) fn clock_millis() -> (millis: i64)
    ensures
        is_clock_reading(millis),
{
    now_millis()
}

} // verus!
