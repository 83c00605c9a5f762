//! The operating system's random source.

use crate::util::encoding::u64_encoding;
use rand::rngs::OsRng;
use rand::RngCore;
use vstd::prelude::*;

verus! {

/// The operating system's random source gave nothing.
#[derive(Debug, Clone, Copy, PartialEq, Eq)]
pub struct RandomError;

/// `RngCore::try_fill_bytes` of `OsRng`: `N` bytes from the operating
/// system's random source, or nothing when the source fails. Nothing is
/// known in advance of the bytes, nor of whether there are any.
#[verifier::external_body]
fn os_random<const N: usize>() -> (bytes: Option<[u8; N]>) {
    let mut bytes = [0u8; N];
    match OsRng.try_fill_bytes(&mut bytes) {
        Ok(()) => Some(bytes),
        Err(_) => None,
    }
}

/// The 64-bit integer whose encoding is `bytes`: the first byte is the
/// least significant.
pub fn u64_from_bytes(bytes: &[u8; 8]) -> (value: u64)
    ensures
        u64_encoding(value) == bytes@,
{
    let b0 = bytes[0] as u64;
    let b1 = bytes[1] as u64;
    let b2 = bytes[2] as u64;
    let b3 = bytes[3] as u64;
    let b4 = bytes[4] as u64;
    let b5 = bytes[5] as u64;
    let b6 = bytes[6] as u64;
    let b7 = bytes[7] as u64;
    let v6: u64 = b6 + 0x100 * b7;
    let v5: u64 = b5 + 0x100 * v6;
    let v4: u64 = b4 + 0x100 * v5;
    let v3: u64 = b3 + 0x100 * v4;
    let v2: u64 = b2 + 0x100 * v3;
    let v1: u64 = b1 + 0x100 * v2;
    let value: u64 = b0 + 0x100 * v1;
    proof {
        reveal_with_fuel(crate::util::encoding::le_bytes, 9);
        assert(u64_encoding(value) =~= bytes@);
    }
    value
}

/// Thirty-two random bytes, unless the random source fails.
pub fn random_bytes() -> (bytes: Result<[u8; 32], RandomError>) {
    match os_random::<32>() {
        Some(bytes) => Ok(bytes),
        None => Err(RandomError),
    }
}

/// A random 64-bit integer, unless the random source fails.
pub fn random_u64() -> (bits: Result<u64, RandomError>) {
    match os_random::<8>() {
        Some(bytes) => Ok(u64_from_bytes(&bytes)),
        None => Err(RandomError),
    }
}

} // verus!
