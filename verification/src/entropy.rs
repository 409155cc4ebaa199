//! Randomness, drawn through the `rand` crate.

use vstd::prelude::*;
use rand::Rng;
use rand::RngCore;

verus! {

/// 24 bytes from the operating system's generator, through
/// `rand::rngs::OsRng::fill_bytes`.
///
/// The bytes are random: nothing is promised of them.
#[verifier::external_body]
pub(crate) fn os_random_24() -> (bytes: [u8; 24]) {
    let mut bytes = [0u8; 24];
    rand::rngs::OsRng.fill_bytes(&mut bytes);
    bytes
}

/// 32 bytes from the operating system's generator, through
/// `rand::rngs::OsRng::fill_bytes`.
///
/// The bytes are random: nothing is promised of them.
#[verifier::external_body]
pub(crate) fn os_random_32() -> (bytes: [u8; 32]) {
    let mut bytes = [0u8; 32];
    rand::rngs::OsRng.fill_bytes(&mut bytes);
    bytes
}

/// `len` bytes from the thread-local generator, through
/// `rand::Rng::fill` on `rand::thread_rng()`.
///
/// The bytes are random: only their number is promised.
#[verifier::external_body]
pub(crate) fn thread_random_bytes(len: usize) -> (bytes: Vec<u8>)
    ensures
        bytes@.len() == len,
{
    let mut bytes = vec![0u8; len];
    rand::thread_rng().fill(&mut bytes[..]);
    bytes
}

/// A number drawn uniformly from `low..high` by `rand::Rng::gen_range` on
/// `rand::thread_rng()`, which panics on an empty range.
///
/// The number is random: only the range is promised.
#[verifier::external_body]
pub(crate) fn thread_random_in_range(low: u32, high: u32) -> (x: u32)
    requires
        low < high,
    ensures
        low <= x < high,
{
    rand::thread_rng().gen_range(low..high)
}

} // verus!
