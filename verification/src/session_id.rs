//! Session identifiers: 128-bit tokens, written and read in UUID notation.

use vstd::prelude::*;

verus! {

/// The identifier that `uuid::Uuid::parse_str` reads from a text, `None` where
/// it rejects the text.
pub uninterp spec fn uuid_parse(text: Seq<char>) -> Option<u128>;

/// The character of a hexadecimal digit, in lower case.
pub open spec fn hex_char(digit: u128) -> char {
    if digit < 10 {
        (0x30 + digit) as u8 as char
    } else {
        (0x57 + digit) as u8 as char
    }
}

/// How many hyphens stand before a position of the hyphenated notation.
pub open spec fn hyphens_before(position: int) -> int {
    if position < 8 {
        0
    } else if position < 13 {
        1
    } else if position < 18 {
        2
    } else if position < 23 {
        3
    } else {
        4
    }
}

/// The hyphenated notation of an identifier: its 32 hexadecimal digits in
/// lower case, most significant first, in groups of 8, 4, 4, 4 and 12 with a
/// hyphen between the groups.
pub open spec fn uuid_text(id: u128) -> Seq<char> {
    Seq::new(
        36,
        |i: int|
            if i == 8 || i == 13 || i == 18 || i == 23 {
                '-'
            } else {
                let digit = i - hyphens_before(i);
                hex_char((id >> ((4 * (31 - digit)) as u128)) & 0xf)
            },
    )
}

/// Bits of an identifier that hold the UUID version and variant.
pub const VERSION_VARIANT_MASK: u128 = 0x0000_0000_0000_f000_c000_0000_0000_0000;

/// Value of those bits in a random (version 4, RFC 4122) identifier.
pub const RANDOM_VERSION_VARIANT: u128 = 0x0000_0000_0000_4000_8000_0000_0000_0000;

/// Whether an identifier carries the version and variant of a random UUID.
pub open spec fn is_random_id(id: u128) -> bool {
    id & VERSION_VARIANT_MASK == RANDOM_VERSION_VARIANT
}

/// Calls `uuid::Uuid::parse_str` and hands out the identifier as a `u128`
/// (`Uuid::as_u128`), or the crate's error message. The contract only names
/// the parser's result; the message is whatever the parser reports.
#[verifier::external_body]
pub(crate) fn parse_uuid(text: &str) -> (r: Result<u128, String>)
    ensures
        match r {
            Ok(id) => uuid_parse(text@) == Some(id),
            Err(_) => uuid_parse(text@) is None,
        },
{
    match uuid::Uuid::parse_str(text) {
        Ok(u) => Ok(u.as_u128()),
        Err(e) => Err(e.to_string()),
    }
}

/// Calls `uuid::Uuid::from_u128` and displays the value with `to_string`: the
/// hyphenated lower-case notation, which `uuid::Uuid::parse_str` reads back to
/// the same identifier.
#[verifier::external_body]
pub(crate) fn format_uuid(id: u128) -> (s: String)
    ensures
        s@ == uuid_text(id),
        uuid_parse(s@) == Some(id),
{
    uuid::Uuid::from_u128(id).to_string()
}

/// Calls `uuid::Uuid::new_v4`: 122 random bits around the fixed version and
/// variant bits. Nothing is claimed about the random part.
#[verifier::external_body]
pub(crate) fn random_uuid() -> (id: u128)
    ensures
        is_random_id(id),
{
    uuid::Uuid::new_v4().as_u128()
}

/// Reads a session identifier from its text.
///
/// Succeeds exactly on the texts that `uuid_parse` accepts; the error is the
/// parser's message.
pub fn parse_session_id(text: &str) -> (r: Result<u128, String>)
    ensures
        match r {
            Ok(id) => uuid_parse(text@) == Some(id),
            Err(_) => uuid_parse(text@) is None,
        },
{
    parse_uuid(text)
}

/// Writes a session identifier as text; `parse_session_id` reads it back.
pub fn session_id_text(id: u128) -> (s: String)
    ensures
        s@ == uuid_text(id),
        uuid_parse(s@) == Some(id),
{
    format_uuid(id)
}

/// Draws a new random session identifier.
pub fn new_session_id() -> (id: u128)
    ensures
        is_random_id(id),
{
    random_uuid()
}

} // verus!
