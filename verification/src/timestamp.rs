//! The wall-clock timestamp that starts every rendered line.

use vstd::prelude::*;

verus! {

/// Whether `c` is one of the digits `0` to `9`.
pub open spec fn is_digit(c: char) -> bool {
    '0' <= c && c <= '9'
}

/// Whether every character of `text` is a digit.
pub open spec fn all_digits(text: Seq<char>) -> bool {
    forall|i: int| 0 <= i < text.len() ==> is_digit(#[trigger] text[i])
}

/// The year of a timestamp: four digits, or a sign and at least four digits.
pub open spec fn is_year_text(text: Seq<char>) -> bool {
    ||| text.len() == 4 && all_digits(text)
    ||| text.len() >= 5 && (text[0] == '+' || text[0] == '-') && all_digits(text.skip(1))
}

/// What follows the year in a timestamp: `-MM-DDTHH:MM:SS.mmmZ`.
pub open spec fn is_day_and_time_text(text: Seq<char>) -> bool {
    &&& text.len() == 20
    &&& text[0] == '-'
    &&& is_digit(text[1])
    &&& is_digit(text[2])
    &&& text[3] == '-'
    &&& is_digit(text[4])
    &&& is_digit(text[5])
    &&& text[6] == 'T'
    &&& is_digit(text[7])
    &&& is_digit(text[8])
    &&& text[9] == ':'
    &&& is_digit(text[10])
    &&& is_digit(text[11])
    &&& text[12] == ':'
    &&& is_digit(text[13])
    &&& is_digit(text[14])
    &&& text[15] == '.'
    &&& is_digit(text[16])
    &&& is_digit(text[17])
    &&& is_digit(text[18])
    &&& text[19] == 'Z'
}

/// Whether `text` has the shape of a UTC date and time with millisecond
/// precision and the designator `Z`, such as `2024-03-01T12:00:00.123Z`.
pub open spec fn is_utc_millis_timestamp(text: Seq<char>) -> bool {
    &&& text.len() >= 24
    &&& is_year_text(text.take(text.len() - 20))
    &&& is_day_and_time_text(text.skip(text.len() - 20))
}

/// Reads the clock: `chrono::Utc::now()`, written by
/// `chrono::DateTime::to_rfc3339_opts` with `SecondsFormat::Millis` and `Z`
/// for UTC.
///
/// Which instant comes back is the clock's to say. The contract claims only
/// the shape of the text: the year, then `-MM-DDTHH:MM:SS.mmmZ`. Like
/// `Utc::now()`, this panics where the system clock stands before 1970 or
/// beyond the years that `chrono` can hold.
#[verifier::external_body]
pub(crate) fn utc_timestamp() -> (text: String)
    ensures
        is_utc_millis_timestamp(text@),
{
    chrono::Utc::now().to_rfc3339_opts(chrono::SecondsFormat::Millis, true)
}

/// A timestamp holds no space, so it ends where the first space of a line
/// that starts with it stands.
pub proof fn lemma_timestamp_has_no_space(text: Seq<char>)
    requires
        is_utc_millis_timestamp(text),
    ensures
        !text.contains(' '),
{
    let n: int = text.len() as int;
    let year = text.take(n - 20);
    let rest = text.skip(n - 20);
    assert forall|i: int| 0 <= i < n implies text[i] != ' ' by {
        if i < n - 20 {
            assert(text[i] == year[i]);
            if i >= 1 {
                assert(year[i] == year.skip(1)[i - 1]);
            }
        } else {
            assert(text[i] == rest[i - (n - 20)]);
        }
    }
}

} // verus!
