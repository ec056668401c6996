//! Wall-clock time, through chrono.

use vstd::prelude::*;
use crate::text::digit_spec;

verus! {

/// Relies on `chrono::Utc::now` and `DateTime::timestamp`: the current time in
/// whole seconds since the Unix epoch. Nothing is promised of its value.
#[verifier::external_body]
pub(crate) fn unix_now() -> (r: i64) {
    chrono::Utc::now().timestamp()
}

pub open spec fn two_digits(n: int) -> Seq<char> {
    seq![digit_spec((n / 10) as nat), digit_spec((n % 10) as nat)]
}

/// Hour and minute in UTC, as "HH:MM".
pub open spec fn clock_text(ts: int) -> Seq<char> {
    let secs = ts % 86400;
    two_digits(secs / 3600) + seq![':'] + two_digits((secs % 3600) / 60)
}

/// Relies on `chrono::DateTime::from_timestamp` and the `"%H:%M"` format: the
/// UTC hour and minute, two digits each. chrono has a date for every second
/// from year 1 to year 9999; for a second it has no date the text is empty.
#[verifier::external_body]
pub(crate) fn clock_of(ts: i64) -> (r: String)
    ensures
        -62135596800 <= ts <= 253402300799 ==> r@ == clock_text(ts as int),
        r@ == clock_text(ts as int) || r@.len() == 0,
{
    chrono::DateTime::from_timestamp(ts, 0).map(|dt| dt.format("%H:%M").to_string()).unwrap_or_default()
}

} // verus!
