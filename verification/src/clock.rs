//! The time of day, as text.
use vstd::prelude::*;

verus! {

/// The text holds nothing but decimal digits.
pub open spec fn all_digits(s: Seq<char>) -> bool {
    forall|i: int| 0 <= i < s.len() ==> '0' <= #[trigger] s[i] <= '9'
}

/// A year: four digits, or a plus sign and at least five.
pub open spec fn year_text(s: Seq<char>) -> bool {
    ||| s.len() == 4 && all_digits(s)
    ||| s.len() >= 6 && s[0] == '+' && all_digits(s.skip(1))
}

/// Month, day and time of day: "-MM-DDThh:mm:ss".
pub open spec fn day_and_time_text(s: Seq<char>) -> bool {
    &&& s.len() == 15
    &&& s[0] == '-'
    &&& all_digits(s.subrange(1, 3))
    &&& s[3] == '-'
    &&& all_digits(s.subrange(4, 6))
    &&& s[6] == 'T'
    &&& all_digits(s.subrange(7, 9))
    &&& s[9] == ':'
    &&& all_digits(s.subrange(10, 12))
    &&& s[12] == ':'
    &&& all_digits(s.subrange(13, 15))
}

/// The fraction of a second: nothing, or a point and three, six or nine digits.
pub open spec fn fraction_text(s: Seq<char>) -> bool {
    ||| s.len() == 0
    ||| (s.len() == 4 || s.len() == 7 || s.len() == 10) && s[0] == '.' && all_digits(s.skip(1))
}

/// The text is a year, a day and time, a fraction of a second, and the offset of UTC.
pub open spec fn stamp_parts(
    s: Seq<char>,
    year: Seq<char>,
    day_and_time: Seq<char>,
    fraction: Seq<char>,
) -> bool {
    &&& s == year + day_and_time + fraction + "+00:00"@
    &&& year_text(year)
    &&& day_and_time_text(day_and_time)
    &&& fraction_text(fraction)
}

/// The text is a time in UTC, written down as date, time of day and offset.
pub open spec fn utc_stamp(s: Seq<char>) -> bool {
    exists|year: Seq<char>, day_and_time: Seq<char>, fraction: Seq<char>| #[trigger]
        stamp_parts(s, year, day_and_time, fraction)
}

/// `chrono::Utc::now` reads the clock and `to_rfc3339` writes the time down: the year, in four digits
/// or with a sign in more, month and day, `T`, hour, minute and second, the fraction of a second as
/// far as there is one, and the offset from UTC, which is none. Which time it is, is left open. A
/// clock that stands before 1970, or beyond the years that `chrono` can count, makes `now` panic.
#[verifier::external_body]
fn utc_now() -> (r: String)
    ensures
        utc_stamp(r@),
{
    chrono::Utc::now().to_rfc3339()
}

/// The time at which it is called.
pub fn timestamp() -> (r: String)
    ensures
        utc_stamp(r@),
{
    utc_now()
}

} // verus!
