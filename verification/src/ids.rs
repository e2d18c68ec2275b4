//! Session identifiers.
//!
//! A session is identified by a UUID, which the library holds as the 128-bit
//! number that `uuid::Uuid::as_u128` gives (the UUID's bytes read big-endian).
//! Generating, printing and parsing identifiers is done by the `uuid` crate.

use vstd::prelude::*;
use vstd::arithmetic::power::pow;

verus! {

/// The lower-case hexadecimal digit of a value in `0..16`.
pub open spec fn hex_digit(n: int) -> char {
    if n < 10 {
        ((n + 48) as u8) as char
    } else {
        ((n - 10 + 97) as u8) as char
    }
}

/// The 32 lower-case hexadecimal digits of `v`, most significant first.
pub open spec fn hex32(v: u128) -> Seq<char> {
    Seq::new(32, |i: int| hex_digit((v as int / pow(16, (31 - i) as nat)) % 16))
}

/// The hyphenated text of a UUID, `xxxxxxxx-xxxx-xxxx-xxxx-xxxxxxxxxxxx`,
/// in lower case.
pub open spec fn uuid_text(v: u128) -> Seq<char> {
    let h = hex32(v);
    h.subrange(0, 8) + seq!['-'] + h.subrange(8, 12) + seq!['-'] + h.subrange(12, 16)
        + seq!['-'] + h.subrange(16, 20) + seq!['-'] + h.subrange(20, 32)
}

/// What `uuid::Uuid::parse_str` makes of a text: the UUID's value, or
/// nothing where the text is not a UUID.
pub uninterp spec fn uuid_parse_result(s: Seq<char>) -> Option<u128>;

/// A fresh random (version 4) session identifier.
///
/// Calls `uuid::Uuid::new_v4`. The value is random; the contract states only
/// the version nibble (4) and the variant bits (binary 10) that `new_v4`
/// sets on every value it returns.
#[verifier::external_body]
pub(crate) fn new_session_id() -> (r: u128)
    ensures
        (r >> 76u128) & 0xfu128 == 4u128,
        (r >> 62u128) & 0x3u128 == 2u128,
{
    uuid::Uuid::new_v4().as_u128()
}

/// The hyphenated lower-case text of a session identifier.
///
/// Calls `uuid::Uuid::to_string` (its `Display`, which writes the
/// hyphenated form in lower case); the contract states that text exactly.
#[verifier::external_body]
pub(crate) fn session_id_text(id: u128) -> (r: String)
    ensures
        r@ == uuid_text(id),
{
    uuid::Uuid::from_u128(id).to_string()
}

/// Parses a session identifier.
///
/// Calls `uuid::Uuid::parse_str`, which accepts the simple, hyphenated,
/// braced and URN forms in either case. The contract names its result and
/// states that the hyphenated lower-case text of any value parses back to
/// that value.
#[verifier::external_body]
pub(crate) fn parse_session_id(s: &str) -> (r: Option<u128>)
    ensures
        r == uuid_parse_result(s@),
        forall|v: u128| s@ == uuid_text(v) ==> r == Some(v),
{
    match uuid::Uuid::parse_str(s) {
        Ok(id) => Some(id.as_u128()),
        Err(_) => None,
    }
}

} // verus!
