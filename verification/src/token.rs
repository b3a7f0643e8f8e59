//! Fresh tokens that tell one execution from every other.

use vstd::prelude::*;

verus! {

/// One of the digits `0` to `9` and `a` to `f`.
pub open spec fn is_lower_hex(c: char) -> bool {
    let n = c as u32;
    (0x30 <= n <= 0x39) || (0x61 <= n <= 0x66)
}

/// The shape of a token: a random (version 4) UUID in its hyphenated
/// lower-case form, 36 characters in five groups of hexadecimal digits.
pub open spec fn is_token(text: Seq<char>) -> bool {
    &&& text.len() == 36
    &&& forall|i: int|
        0 <= i < 36 ==> if i == 8 || i == 13 || i == 18 || i == 23 {
            #[trigger] text[i] == '-'
        } else {
            is_lower_hex(#[trigger] text[i])
        }
    &&& text[14] == '4'
    &&& (text[19] == '8' || text[19] == '9' || text[19] == 'a' || text[19] == 'b')
}

/// Calls `uuid::Uuid::new_v4` and renders the result with `to_string`. The
/// first draws 122 random bits from the operating system and sets the
/// version and variant fields; the second writes the 16 bytes as lower-case
/// hexadecimal digits with a hyphen after the 8th, 12th, 16th and 20th.
/// The contract states that shape, which holds whatever was drawn. `new_v4`
/// panics where the operating system hands out no random bytes.
#[verifier::external_body]
fn random_uuid_text() -> (text: String)
    ensures
        is_token(text@),
{
    uuid::Uuid::new_v4().to_string()
}

/// A fresh token. Two tokens are equal only with negligible probability;
/// nothing is promised of their order.
pub fn new_token() -> (token: String)
    ensures
        is_token(token@),
{
    random_uuid_text()
}

} // verus!
