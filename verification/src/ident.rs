//! UUIDs as 128-bit integers, created and printed through the `uuid` crate.

use vstd::prelude::*;
use vstd::arithmetic::power::pow;

verus! {

/// The lowercase hexadecimal digit for `n` in `0..16`.
pub open spec fn hex_digit(n: int) -> char {
    if n < 10 {
        (n + 48) as char
    } else {
        (n + 87) as char
    }
}

/// The `i`-th hexadecimal digit of `v`, counting from the most significant
/// of its 32 digits.
pub open spec fn uuid_nibble(v: u128, i: int) -> int {
    (v as int / pow(16, (31 - i) as nat)) % 16
}

/// The number of hyphens that precede position `k` of the hyphenated form.
pub open spec fn hyphens_before(k: int) -> int {
    if k < 8 {
        0
    } else if k < 13 {
        1
    } else if k < 18 {
        2
    } else if k < 23 {
        3
    } else {
        4
    }
}

/// The hyphenated lowercase text of a UUID: 8-4-4-4-12 hexadecimal digits,
/// most significant first, e.g. `67e55044-10b1-426f-9247-bb680e5fe0c8`.
pub open spec fn uuid_text(v: u128) -> Seq<char> {
    Seq::new(
        36,
        |k: int|
            if k == 8 || k == 13 || k == 18 || k == 23 {
                '-'
            } else {
                hex_digit(uuid_nibble(v, k - hyphens_before(k)))
            },
    )
}

/// What `uuid::Uuid::parse_str` gives for a text, as a 128-bit value.
pub uninterp spec fn uuid_parse_result(text: Seq<char>) -> Option<u128>;

/// A version-4 (random) UUID of the RFC 4122 variant: its version nibble
/// (bits 76..80) is 4 and its variant bits (62..64) are `10`.
pub open spec fn is_uuid_v4(v: u128) -> bool {
    (v >> 76u128) & 0xFu128 == 4 && (v >> 62u128) & 0x3u128 == 2
}

/// Draws a random version-4 UUID through `uuid::Uuid::new_v4`, which sets
/// the version and variant bits over random bits.
///
/// The other 122 bits are random: nothing is promised of them.
#[verifier::external_body]
pub(crate) fn new_uuid_v4() -> (v: u128)
    ensures
        is_uuid_v4(v),
{
    uuid::Uuid::new_v4().as_u128()
}

/// Prints a UUID through its `Display` impl (`uuid::Uuid::to_string`),
/// which writes the hyphenated lowercase form.
#[verifier::external_body]
pub(crate) fn uuid_to_string(v: u128) -> (s: String)
    ensures
        s@ == uuid_text(v),
{
    uuid::Uuid::from_u128(v).to_string()
}

/// Parses a UUID through `uuid::Uuid::parse_str`.
///
/// The accepted forms (simple, hyphenated, braced, URN; either case) are
/// left to the name `uuid_parse_result`; the one fact stated is that the
/// hyphenated lowercase text of a value parses back to that value.
#[verifier::external_body]
pub(crate) fn uuid_parse(text: &str) -> (r: Option<u128>)
    ensures
        r == uuid_parse_result(text@),
        forall|v: u128| text@ == uuid_text(v) ==> r == Some(v),
{
    match uuid::Uuid::parse_str(text) {
        Ok(u) => Some(u.as_u128()),
        Err(_) => None,
    }
}

} // verus!
