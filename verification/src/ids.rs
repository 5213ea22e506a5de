//! Player ids. A player id is the 128-bit value of a UUID; the `uuid` crate
//! generates, prints and parses them.

use vstd::prelude::*;
use vstd::arithmetic::power::pow;

verus! {

/// The character at position `at` of the text of the id `id`: a hyphen
/// at positions 8, 13, 18 and 23, and elsewhere the next of the id's 32
/// hexadecimal digits, most significant first, in lower case.
pub open spec fn uuid_char(id: u128, at: int) -> char {
    if at == 8 || at == 13 || at == 18 || at == 23 {
        '-'
    } else {
        let digit = if at < 8 {
            at
        } else if at < 13 {
            at - 1
        } else if at < 18 {
            at - 2
        } else if at < 23 {
            at - 3
        } else {
            at - 4
        };
        "0123456789abcdef"@[(id as int / pow(16, (31 - digit) as nat)) % 16]
    }
}

/// The text of the id `id`: 36 characters, the hexadecimal digits in
/// groups of 8, 4, 4, 4 and 12 with a hyphen between them.
pub open spec fn uuid_text(id: u128) -> Seq<char> {
    Seq::new(36, |at: int| uuid_char(id, at))
}

/// The id `uuid` reads from `text`, if it accepts the text.
pub uninterp spec fn uuid_parsed(text: Seq<char>) -> Option<u128>;

/// Calls `uuid::Uuid::now_v7` and hands back the new UUID's 128-bit value.
/// The value depends on the clock and on random bits, so nothing is claimed
/// of it.
#[verifier::external_body]
pub(crate) fn fresh_uuid() -> (id: u128) {
    uuid::Uuid::now_v7().as_u128()
}

/// Calls `String::from` on the `uuid::Uuid` made by `uuid::Uuid::from_u128`
/// from `id`. The claim: the text is the hyphenated lower-case form of the
/// id, which `uuid_text` spells out.
#[verifier::external_body]
pub(crate) fn uuid_to_string(id: u128) -> (text: String)
    ensures
        text@ == uuid_text(id),
{
    String::from(uuid::Uuid::from_u128(id))
}

/// Calls `uuid::Uuid::try_parse`. The claim: whether the text is accepted,
/// and the value read from it, are a function of the text alone, named
/// `uuid_parsed`.
#[verifier::external_body]
pub(crate) fn parse_uuid(text: &str) -> (id: Option<u128>)
    ensures
        id == uuid_parsed(text@),
{
    match uuid::Uuid::try_parse(text) {
        Ok(uuid) => Some(uuid.as_u128()),
        Err(_) => None,
    }
}

} // verus!
