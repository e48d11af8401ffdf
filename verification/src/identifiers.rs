//! Token and user identifiers: 128-bit values, written as 36 characters of
//! lower-case hexadecimal digits in five hyphen-separated groups.

use vstd::arithmetic::power::pow;
use vstd::prelude::*;

verus! {

/// The lower-case hexadecimal digit for `n`, where `0 <= n < 16`.
pub open spec fn hex_digit(n: int) -> char {
    seq!['0', '1', '2', '3', '4', '5', '6', '7', '8', '9', 'a', 'b', 'c', 'd', 'e', 'f'][n]
}

/// The `k`-th of the 32 hexadecimal digits of `id`, the most significant
/// being the one at `k == 0`.
pub open spec fn nibble(id: u128, k: int) -> int {
    (id as int / pow(16, (31 - k) as nat)) % 16
}

/// How many hyphens stand before position `i` of the written form.
pub open spec fn hyphens_before(i: int) -> int {
    if i < 8 {
        0
    } else if i < 13 {
        1
    } else if i < 18 {
        2
    } else if i < 23 {
        3
    } else {
        4
    }
}

/// The written form of `id`: groups of 8, 4, 4, 4 and 12 digits.
pub open spec fn hyphenated(id: u128) -> Seq<char> {
    Seq::new(
        36,
        |i: int|
            if i == 8 || i == 13 || i == 18 || i == 23 {
                '-'
            } else {
                hex_digit(nibble(id, i - hyphens_before(i)))
            },
    )
}

/// What `uuid::Uuid::parse_str` reads from a text: the identifier, or `None`
/// where the text is not one of the written forms that the `uuid` crate
/// accepts.
pub uninterp spec fn uuid_parsed(text: Seq<char>) -> Option<u128>;

/// Whether `id` carries the marks of a randomly drawn identifier: version 4
/// in the third group, the RFC variant in the fourth.
pub open spec fn is_random_uuid(id: u128) -> bool {
    id & 0x0000_0000_0000_f000_c000_0000_0000_0000u128
        == 0x0000_0000_0000_4000_8000_0000_0000_0000u128
}

/// Calls `uuid::Uuid::new_v4`. Trusted: the value is drawn at random, so all
/// that is claimed is that it has the version and variant bits which
/// `new_v4` sets on every value it returns.
#[verifier::external_body]
pub(crate) fn random_uuid() -> (id: u128)
    ensures
        is_random_uuid(id),
{
    uuid::Uuid::new_v4().as_u128()
}

/// Calls `uuid::Uuid`'s `to_string`. Trusted: the text is the hyphenated
/// lower-case form of `id`, and `parse_str` reads that text back as `id`.
#[verifier::external_body]
pub(crate) fn uuid_to_string(id: u128) -> (text: String)
    ensures
        text@ == hyphenated(id),
        uuid_parsed(text@) == Some(id),
{
    uuid::Uuid::from_u128(id).to_string()
}

/// Calls `uuid::Uuid::parse_str`. Trusted: the result is what the `uuid`
/// crate reads from `text`, which depends on `text` alone.
#[verifier::external_body]
pub(crate) fn parse_uuid(text: &str) -> (id: Option<u128>)
    ensures
        id == uuid_parsed(text@),
{
    uuid::Uuid::parse_str(text).ok().map(|u| u.as_u128())
}

} // verus!
