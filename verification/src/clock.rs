//! The wall clock, read through chrono.

use vstd::prelude::*;

verus! {

/// Whether `c` is a decimal digit.
pub open spec fn is_digit(c: char) -> bool {
    '0' <= c && c <= '9'
}

/// Whether every character of `s` is a decimal digit.
pub open spec fn all_digits(s: Seq<char>) -> bool {
    forall|i: int| 0 <= i < s.len() ==> is_digit(#[trigger] s[i])
}

/// The year of an RFC 3339 time stamp as chrono writes it: four digits,
/// or, outside the years 0 to 9999, a sign followed by at least four
/// digits.
pub open spec fn is_year_text(s: Seq<char>) -> bool {
    ||| s.len() == 4 && all_digits(s)
    ||| s.len() >= 5 && (s[0] == '+' || s[0] == '-') && all_digits(s.drop_first())
}

/// The fraction of a second as chrono writes it: nothing, or a dot
/// followed by three, six or nine digits.
pub open spec fn is_fraction_text(s: Seq<char>) -> bool {
    ||| s.len() == 0
    ||| (s.len() == 4 || s.len() == 7 || s.len() == 10) && s[0] == '.' && all_digits(s.drop_first())
}

/// Whether `s` splits as `year-MM-DDThh:mm:ss` + `fraction` + `+00:00`,
/// the fraction being `f` characters long.
pub open spec fn is_utc_stamp_with_fraction(s: Seq<char>, f: int) -> bool {
    let n = s.len() as int;
    let tail = n - 6;
    let time_end = tail - f;
    let time_start = time_end - 8;
    let date_end = time_start - 1;
    let year_end = date_end - 6;
    &&& 0 <= f
    &&& 0 <= year_end
    &&& is_year_text(s.subrange(0, year_end))
    &&& s[year_end] == '-'
    &&& all_digits(s.subrange(year_end + 1, year_end + 3))
    &&& s[year_end + 3] == '-'
    &&& all_digits(s.subrange(year_end + 4, date_end))
    &&& s[date_end] == 'T'
    &&& all_digits(s.subrange(time_start, time_start + 2))
    &&& s[time_start + 2] == ':'
    &&& all_digits(s.subrange(time_start + 3, time_start + 5))
    &&& s[time_start + 5] == ':'
    &&& all_digits(s.subrange(time_start + 6, time_end))
    &&& is_fraction_text(s.subrange(time_end, tail))
    &&& s.subrange(tail, n) == seq!['+', '0', '0', ':', '0', '0']
}

/// Whether `s` is an RFC 3339 time stamp in UTC of the form chrono's
/// `DateTime::<Utc>::to_rfc3339` writes:
/// `YYYY-MM-DDThh:mm:ss[.fraction]+00:00`.
pub open spec fn is_rfc3339_utc(s: Seq<char>) -> bool {
    exists|f: int| is_utc_stamp_with_fraction(s, f)
}

/// Reads the system clock with `std::time::SystemTime::now`, converts it
/// with chrono's `From<SystemTime> for DateTime<Utc>` and renders it with
/// `DateTime::to_rfc3339`. chrono's conversion handles clock readings
/// before the Unix epoch too; its only `unwrap` fails for times beyond
/// chrono's range of about 262,000 years, which no system clock reading
/// reaches. `to_rfc3339` writes the year as four digits (with a sign and
/// at least four digits outside the years 0 to 9999), two digits each for
/// month, day, hour, minute and second, a fraction of three, six or nine
/// digits when the second has one, and the offset `+00:00`. Which time it
/// shows depends on the moment of the call and is not stated.
#[verifier::external_body]
pub(crate) fn now_rfc3339() -> (r: String)
    ensures
        is_rfc3339_utc(r@),
{
    chrono::DateTime::<chrono::Utc>::from(std::time::SystemTime::now()).to_rfc3339()
}

} // verus!
