//! Fresh identifiers.
use vstd::prelude::*;

verus! {

/// A digit of a hexadecimal number, in lower case.
pub open spec fn is_lower_hex(c: char) -> bool {
    '0' <= c <= '9' || 'a' <= c <= 'f'
}

/// The hyphenated text of a version 7 UUID.
pub open spec fn is_v7_text(s: Seq<char>) -> bool {
    &&& s.len() == 36
    &&& forall|i: int|
        0 <= i < 36 ==> if i == 8 || i == 13 || i == 18 || i == 23 {
            #[trigger] s[i] == '-'
        } else {
            is_lower_hex(s[i])
        }
    &&& s[14] == '7'
    &&& s[19] == '8' || s[19] == '9' || s[19] == 'a' || s[19] == 'b'
}

/// There is such a text.
pub proof fn some_v7_text() -> (res: Seq<char>)
    ensures
        is_v7_text(res),
{
    Seq::new(
        36,
        |i: int|
            if i == 8 || i == 13 || i == 18 || i == 23 {
                '-'
            } else if i == 14 {
                '7'
            } else {
                '8'
            },
    )
}

/// `uuid::Uuid::now_v7`, written out by the `Display` of `uuid::Uuid`.
///
/// The value comes from the clock and from chance. Whatever it is, its text is 32 hexadecimal
/// digits in lower case, in groups of 8, 4, 4, 4 and 12 with hyphens between them, with the
/// version and the variant of a version 7 UUID. That no two calls give one text is not claimed.
/// On a machine whose clock stands before the epoch, or that has no random bytes to give, the
/// call panics; no argument decides that.
#[verifier::external_body]
pub(crate) fn now_v7_text() -> (res: String)
    ensures
        is_v7_text(res@),
{
    uuid::Uuid::now_v7().to_string()
}

} // verus!
