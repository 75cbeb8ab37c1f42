//! The time of day, as it is written into terminal entries.

use vstd::prelude::*;

verus! {

/// One of the ten decimal digits.
pub open spec fn is_digit(c: char) -> bool {
    0x30 <= c as u32 <= 0x39
}

/// A text of decimal digits only.
pub open spec fn all_digits(s: Seq<char>) -> bool {
    forall|i: int| 0 <= i < s.len() ==> is_digit(#[trigger] s[i])
}

/// How many digits stand in `s` in a row from index `i` on.
pub open spec fn digit_run(s: Seq<char>, i: int) -> int
    decreases s.len() - i,
{
    if 0 <= i < s.len() && is_digit(s[i]) {
        1 + digit_run(s, i + 1)
    } else {
        0
    }
}

/// How long the year at the head of a time stamp is: four characters, or, where
/// the stamp begins with a plus sign, that sign and the digits behind it.
pub open spec fn year_len(stamp: Seq<char>) -> int {
    if stamp.len() > 0 && stamp[0] == '+' {
        1 + digit_run(stamp, 1)
    } else {
        4
    }
}

/// A year as a time stamp writes it: four digits, or a plus sign and five digits
/// or more.
pub open spec fn is_year(s: Seq<char>) -> bool {
    ||| s.len() == 4 && all_digits(s)
    ||| s.len() >= 6 && s[0] == '+' && all_digits(s.skip(1))
}

/// What follows the year in a time stamp: `-MM-DDTHH:MM:SS`, every letter but
/// `T` a digit.
pub open spec fn is_day_and_time(s: Seq<char>) -> bool {
    &&& s.len() == 15
    &&& s[0] == '-'
    &&& is_digit(s[1])
    &&& is_digit(s[2])
    &&& s[3] == '-'
    &&& is_digit(s[4])
    &&& is_digit(s[5])
    &&& s[6] == 'T'
    &&& is_digit(s[7])
    &&& is_digit(s[8])
    &&& s[9] == ':'
    &&& is_digit(s[10])
    &&& is_digit(s[11])
    &&& s[12] == ':'
    &&& is_digit(s[13])
    &&& is_digit(s[14])
}

/// The fraction of a second in a time stamp: nothing, or a dot and three, six or
/// nine digits.
pub open spec fn is_fraction(s: Seq<char>) -> bool {
    ||| s.len() == 0
    ||| (s.len() == 4 || s.len() == 7 || s.len() == 10) && s[0] == '.' && all_digits(s.skip(1))
}

/// A time stamp that gives its time as UTC: it ends with the offset `+00:00`.
pub open spec fn has_utc_offset(stamp: Seq<char>) -> bool {
    stamp.len() >= 6 && stamp.skip(stamp.len() - 6) == "+00:00"@
}

/// The form of a time stamp in UTC: a year, `-MM-DDTHH:MM:SS`, an optional
/// fraction of a second, and the offset `+00:00`. Which day and which time the
/// digits give is left open.
pub open spec fn is_utc_stamp(stamp: Seq<char>) -> bool {
    let year = year_len(stamp);
    &&& stamp.len() >= year + 21
    &&& is_year(stamp.take(year))
    &&& is_day_and_time(stamp.subrange(year, year + 15))
    &&& is_fraction(stamp.subrange(year + 15, stamp.len() - 6))
    &&& has_utc_offset(stamp)
}

/// The current time from `chrono::Utc::now`, written by `DateTime::to_rfc3339`.
///
/// Which time comes back is up to the clock. Claimed is only the form that chrono
/// writes for every time in UTC: four digits of the year (a plus sign and more
/// digits from the year 10000 on), month, day, `T`, hour, minute and second in two
/// digits each, a fraction of three, six or nine digits where the time has one,
/// and the offset `+00:00`. chrono stops the program where the system clock stands
/// before the year 1970.
#[verifier::external_body]
pub(crate) fn utc_now_text() -> (stamp: String)
    ensures
        is_utc_stamp(stamp@),
{
    chrono::Utc::now().to_rfc3339()
}

} // verus!
