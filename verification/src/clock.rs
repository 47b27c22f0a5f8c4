//! The current time.
use vstd::prelude::*;

verus! {

/// A decimal digit.
pub open spec fn is_digit(c: char) -> bool {
    '0' <= c <= '9'
}

/// Nothing but decimal digits.
pub open spec fn are_digits(s: Seq<char>) -> bool {
    forall|i: int| 0 <= i < s.len() ==> is_digit(#[trigger] s[i])
}

/// The text of a year: four digits, or a plus sign and at least five digits, or a minus sign and
/// at least four.
pub open spec fn is_year_text(s: Seq<char>) -> bool {
    ||| s.len() == 4 && are_digits(s)
    ||| s.len() >= 6 && s[0] == '+' && are_digits(s.drop_first())
    ||| s.len() >= 5 && s[0] == '-' && are_digits(s.drop_first())
}

/// The text of a moment in UTC, to the second: a year, then `-MM-DDThh:mm:ssZ`.
pub open spec fn is_utc_second_text(s: Seq<char>) -> bool {
    let tail = s.subrange(s.len() - 16, s.len() as int);
    &&& s.len() >= 20
    &&& is_year_text(s.subrange(0, s.len() - 16))
    &&& forall|i: int|
        0 <= i < 16 ==> if i == 0 || i == 3 {
            #[trigger] tail[i] == '-'
        } else if i == 6 {
            tail[i] == 'T'
        } else if i == 9 || i == 12 {
            tail[i] == ':'
        } else if i == 15 {
            tail[i] == 'Z'
        } else {
            is_digit(tail[i])
        }
}

/// There is such a text.
pub proof fn some_utc_second_text() -> (text: Seq<char>)
    ensures
        is_utc_second_text(text),
{
    reveal_strlit("1970-01-01T00:00:00Z");
    "1970-01-01T00:00:00Z"@
}

/// `chrono::Utc::now` and `chrono::DateTime::timestamp`: the seconds since the Unix epoch.
///
/// Nothing is claimed of the value: it is what the clock says. In a browser it may be negative;
/// elsewhere, on a machine whose clock stands
/// before the epoch the call panics; no argument decides that.
#[verifier::external_body]
pub(crate) fn unix_now() -> (res: i64) {
    chrono::Utc::now().timestamp()
}

/// `chrono::Utc::now` and `chrono::DateTime::to_rfc3339_opts`, to the second and with a `Z`.
///
/// The moment is what the clock says. Whatever it is, the text is a year, and behind it the month,
/// the day and the time of day in two digits each. A year from 0 to 9999 has four digits; a later
/// one has a plus sign and all its digits, an earlier one a minus sign and at least four.
/// On a machine whose clock stands before the epoch the call panics; no argument decides that.
#[verifier::external_body]
pub(crate) fn rfc3339_now() -> (res: String)
    ensures
        is_utc_second_text(res@),
{
    chrono::Utc::now().to_rfc3339_opts(chrono::SecondsFormat::Secs, true)
}

} // verus!
