//! The wall clock, read through `chrono`.

use vstd::prelude::*;

verus! {

/// The current time in whole seconds since the Unix epoch.
///
/// Trusted: `chrono::Utc::now` followed by `DateTime::timestamp`. The clock
/// decides the value, so nothing is claimed of it but its range: `now` builds
/// the time from a duration since the epoch, so the timestamp is not negative
/// and fits the signed 64-bit integer that `timestamp` returns. (`now` panics
/// on a machine whose clock stands before 1970.)
#[verifier::external_body]
pub(crate) fn unix_now() -> (now: u64)
    ensures
        now <= i64::MAX,
{
    chrono::Utc::now().timestamp() as u64
}

/// The form of the time stamp in a file name: year, month, day, hour,
/// minute and second of the time in UTC.
pub const STAMP_FORMAT: &'static str = "%Y-%m-%d_%H-%M-%S_UTC";

/// Whether a character is a decimal digit.
pub open spec fn is_digit(c: char) -> bool {
    c == '0' || c == '1' || c == '2' || c == '3' || c == '4' || c == '5' || c == '6' || c == '7'
        || c == '8' || c == '9'
}

/// Whether a text consists of decimal digits only.
pub open spec fn all_digits(text: Seq<char>) -> bool {
    forall|i: int| 0 <= i < text.len() ==> is_digit(#[trigger] text[i])
}

/// The text of a year from 1970 on: four digits up to the year 9999, a plus
/// sign and at least five digits after it.
pub open spec fn is_year_text(text: Seq<char>) -> bool {
    ||| text.len() == 4 && all_digits(text)
    ||| text.len() >= 6 && text[0] == '+' && all_digits(text.drop_first())
}

/// The text of a month, day, hour, minute or second: two digits.
pub open spec fn is_two_digits(text: Seq<char>) -> bool {
    text.len() == 2 && all_digits(text)
}

/// The time stamp with the given fields.
pub open spec fn stamp_of(
    year: Seq<char>,
    month: Seq<char>,
    day: Seq<char>,
    hour: Seq<char>,
    minute: Seq<char>,
    second: Seq<char>,
) -> Seq<char> {
    year + "-"@ + month + "-"@ + day + "_"@ + hour + "-"@ + minute + "-"@ + second + "_UTC"@
}

/// Whether a text is a time stamp of the form `YYYY-MM-DD_HH-MM-SS_UTC`.
pub open spec fn is_utc_stamp(text: Seq<char>) -> bool {
    exists|
        year: Seq<char>,
        month: Seq<char>,
        day: Seq<char>,
        hour: Seq<char>,
        minute: Seq<char>,
        second: Seq<char>,
    |
        {
            &&& is_year_text(year)
            &&& is_two_digits(month)
            &&& is_two_digits(day)
            &&& is_two_digits(hour)
            &&& is_two_digits(minute)
            &&& is_two_digits(second)
            &&& text == #[trigger] stamp_of(year, month, day, hour, minute, second)
        }
}

/// The current UTC date and time in the form of the time stamp.
///
/// Trusted: `chrono::Utc::now` followed by `DateTime::format` with the given
/// format, which must be that of the time stamp. The clock decides the
/// fields, so only the shape of the text is claimed: chrono writes the
/// literal parts of the format as they stand, month, day, hour, minute and
/// second with two digits each, and the year with four digits, or with a
/// plus sign and its digits from the year 10000 on. The year is not before
/// 1970, since `now` takes the time from a duration since the epoch.
#[verifier::external_body]
pub(crate) fn utc_stamp(format: &str) -> (stamp: String)
    requires
        format@ == STAMP_FORMAT@,
    ensures
        is_utc_stamp(stamp@),
{
    chrono::Utc::now().format(format).to_string()
}

} // verus!
