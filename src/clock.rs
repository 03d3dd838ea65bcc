//! The wall clock, read through chrono.

use vstd::prelude::*;

verus! {

pub open spec fn is_digit(c: char) -> bool {
    '0' <= c && c <= '9'
}

/// `YYYY-MM-DDTHH:MM:SS` at the start of `s`.
pub open spec fn date_time_layout(s: Seq<char>) -> bool {
    s.len() >= 19 && is_digit(s[0]) && is_digit(s[1]) && is_digit(s[2]) && is_digit(s[3]) && s[4]
        == '-' && is_digit(s[5]) && is_digit(s[6]) && s[7] == '-' && is_digit(s[8]) && is_digit(
        s[9],
    ) && s[10] == 'T' && is_digit(s[11]) && is_digit(s[12]) && s[13] == ':' && is_digit(s[14])
        && is_digit(s[15]) && s[16] == ':' && is_digit(s[17]) && is_digit(s[18])
}

/// An RFC 3339 UTC instant as chrono writes it: for a four-digit year,
/// `YYYY-MM-DDTHH:MM:SS`, then nothing or `.` and 3, 6 or 9 fraction
/// digits; a year past 9999 starts with `+`; the offset is always `+00:00`.
pub open spec fn utc_rfc3339(s: Seq<char>) -> bool {
    &&& s.len() >= 25
    &&& s.subrange(s.len() - 6, s.len() as int) == "+00:00"@
    &&& (s[0] == '+' || (date_time_layout(s) && (s.len() == 25 || (s[19] == '.' && (s.len()
        == 29 || s.len() == 32 || s.len() == 35)))))
}

/// Relies on chrono's `Utc::now` and `DateTime::to_rfc3339`: the current
/// instant in RFC 3339 form. The writer (`write_rfc3339`) puts a four-digit
/// year or a signed longer one, two digits for every other field, the
/// fraction only when non-zero as 3, 6 or 9 digits, and, for UTC with zulu
/// off, the offset `+00:00`.
#[verifier::external_body]
pub(crate) fn utc_now_rfc3339() -> (r: String)
    ensures
        utc_rfc3339(r@),
{
    chrono::Utc::now().to_rfc3339()
}

/// Relies on chrono's `Utc::now` and `Timelike::hour`: the current UTC hour,
/// documented as a number from 0 to 23.
#[verifier::external_body]
pub(crate) fn utc_hour() -> (r: u32)
    ensures
        r < 24,
{
    chrono::Timelike::hour(&chrono::Utc::now())
}

/// Relies on chrono's `Utc::now`, `Datelike::weekday` and
/// `Weekday::num_days_from_monday`: the current UTC weekday, Monday as 0
/// through Sunday as 6.
#[verifier::external_body]
pub(crate) fn utc_weekday_from_monday() -> (r: u32)
    ensures
        r < 7,
{
    chrono::Datelike::weekday(&chrono::Utc::now()).num_days_from_monday()
}

/// Relies on chrono's `Utc::now` and `DateTime::timestamp`: the current
/// instant in whole seconds since the Unix epoch; `now` is built from the
/// time elapsed since the epoch, so it is never negative.
#[verifier::external_body]
pub(crate) fn utc_timestamp() -> (r: i64)
    ensures
        r >= 0,
{
    chrono::Utc::now().timestamp()
}

} // verus!
