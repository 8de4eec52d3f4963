//! Identifiers that come as text: group ids and network peer ids.
//!
//! Both formats belong to outside crates, which parse and print them. What
//! parsing returns is named here and not defined; nothing in this file is
//! proved.

use vstd::prelude::*;
use core::str::FromStr;
use vstd::arithmetic::power::pow;

verus! {

/// The group id that a text stands for, as a 128-bit number with the first
/// byte of the id as its most significant; `None` where the text is no UUID.
pub uninterp spec fn uuid_parse(text: Seq<char>) -> Option<u128>;

/// The hexadecimal digit, in lower case, of a number below sixteen.
pub open spec fn hex_digit(value: int) -> char {
    if value < 10 {
        (48 + value) as u8 as char
    } else {
        (87 + value) as u8 as char
    }
}

/// The digit at position `at` of the 32 hexadecimal digits of `id`, counted
/// from the most significant.
pub open spec fn uuid_digit(id: u128, at: int) -> int {
    (id as int / pow(16, (31 - at) as nat)) % 16
}

/// How many hyphens stand before position `at` of the text of a group id.
pub open spec fn hyphens_before(at: int) -> int {
    if at > 23 {
        4
    } else if at > 18 {
        3
    } else if at > 13 {
        2
    } else if at > 8 {
        1
    } else {
        0
    }
}

/// The text of a group id: its 32 hexadecimal digits in lower case, in groups
/// of 8, 4, 4, 4 and 12 with a hyphen between two groups.
pub open spec fn uuid_text(id: u128) -> Seq<char> {
    Seq::new(
        36,
        |at: int|
            if at == 8 || at == 13 || at == 18 || at == 23 {
                '-'
            } else {
                hex_digit(uuid_digit(id, at - hyphens_before(at)))
            },
    )
}

/// Whether a text is the base-58 form of a network peer id.
pub uninterp spec fn peer_id_parses(text: Seq<char>) -> bool;

/// Calls `uuid::Uuid::from_str` and, on success, `Uuid::as_u128`. Claimed:
/// whether a text parses, and to which id, depends on the text alone.
#[verifier::external_body]
pub(crate) fn parse_uuid(text: &str) -> (id: Option<u128>)
    ensures
        id == uuid_parse(text@),
{
    match uuid::Uuid::from_str(text) {
        Ok(id) => Some(id.as_u128()),
        Err(_) => None,
    }
}

/// Calls `uuid::Uuid::from_u128` and the id's `to_string`. Claimed: the text
/// is the hyphenated lower-case form of the id.
#[verifier::external_body]
pub(crate) fn format_uuid(id: u128) -> (text: String)
    ensures
        text@ == uuid_text(id),
{
    uuid::Uuid::from_u128(id).to_string()
}

/// Calls `uuid::Uuid::new_v4` and the id's `as_u128`: a random id, drawn from
/// the operating system's generator, which panics where the system has no
/// randomness to give. Nothing is claimed of the number.
#[verifier::external_body]
pub(crate) fn fresh_uuid() -> (id: u128) {
    uuid::Uuid::new_v4().as_u128()
}

/// Calls `libp2p::PeerId::from_str`. Claimed: whether a text parses depends
/// on the text alone.
#[verifier::external_body]
pub(crate) fn is_peer_id(text: &str) -> (parses: bool)
    ensures
        parses == peer_id_parses(text@),
{
    libp2p::PeerId::from_str(text).is_ok()
}

} // verus!
