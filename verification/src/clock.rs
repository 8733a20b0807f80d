//! The system clock, read through `chrono`.

use vstd::prelude::*;
use crate::text::is_digit;

verus! {

/// A year as chrono writes it for a year since 1970: four digits up to
/// 9999, a plus sign and at least five digits after that.
pub open spec fn year_text(y: Seq<char>) -> bool {
    ||| y.len() == 4 && forall|i: int| 0 <= i < 4 ==> is_digit(#[trigger] y[i])
    ||| y.len() >= 6 && y[0] == '+' && forall|i: int| 1 <= i < y.len() ==> is_digit(#[trigger] y[i])
}

/// The part after the year: `-MM-DDTHH:MM:SSZ`, each field two digits.
pub open spec fn timestamp_tail(t: Seq<char>) -> bool {
    &&& t.len() == 16
    &&& t[0] == '-'
    &&& is_digit(t[1]) && is_digit(t[2])
    &&& t[3] == '-'
    &&& is_digit(t[4]) && is_digit(t[5])
    &&& t[6] == 'T'
    &&& is_digit(t[7]) && is_digit(t[8])
    &&& t[9] == ':'
    &&& is_digit(t[10]) && is_digit(t[11])
    &&& t[12] == ':'
    &&& is_digit(t[13]) && is_digit(t[14])
    &&& t[15] == 'Z'
}

/// An RFC 3339 UTC time to the second, as
/// `to_rfc3339_opts(SecondsFormat::Secs, true)` writes it: the year, then
/// `-MM-DDTHH:MM:SSZ`.
pub open spec fn utc_timestamp(s: Seq<char>) -> bool {
    &&& s.len() >= 20
    &&& year_text(s.take(s.len() - 16))
    &&& timestamp_tail(s.skip(s.len() - 16))
}

/// `chrono::Utc::now().to_rfc3339_opts(SecondsFormat::Secs, true)`: the
/// current UTC time such as `2025-03-01T09:30:00Z`. Which time it is comes
/// from the system clock and is not stated; its shape is (chrono's
/// `write_rfc3339`: the year as `year_text` says, since `Utc::now` is never
/// before 1970, then two-digit month, day, hour, minute and second and `Z`).
#[verifier::external_body]
pub(crate) fn now() -> (t: String)
    ensures
        utc_timestamp(t@),
{
    chrono::Utc::now().to_rfc3339_opts(chrono::SecondsFormat::Secs, true)
}

/// `chrono::Utc::now().format("%Y")`: the current UTC year. Which year it is
/// comes from the system clock and is not stated; its shape is (chrono's
/// `write_year`: four digits for 1000 to 9999, sign and digits beyond).
#[verifier::external_body]
pub(crate) fn current_year() -> (y: String)
    ensures
        year_text(y@),
{
    chrono::Utc::now().format("%Y").to_string()
}

} // verus!
