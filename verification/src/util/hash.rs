//! Content hashes: SHA-256 over canonical bytes.

use crate::util::encoding::{byte_string_encoding, to_bytes, write_byte_string, Encode};
use sha2::{Digest, Sha256};
use vstd::prelude::*;

verus! {

/// Number of bytes in a hash.
pub const HASH_LEN: usize = 32;

/// The SHA-256 digest of `bytes`.
pub uninterp spec fn sha256(bytes: Seq<u8>) -> Seq<u8>;

/// The two lower-case hexadecimal digits of each byte, high digit first.
pub open spec fn hex_encoding(bytes: Seq<u8>) -> Seq<char> {
    Seq::new(
        2 * bytes.len(),
        |i: int|
            hex_digit(
                if i % 2 == 0 {
                    bytes[i / 2] as int / 16
                } else {
                    bytes[i / 2] as int % 16
                },
            ),
    )
}

/// The lower-case hexadecimal digit for `d`, which is below sixteen.
pub open spec fn hex_digit(d: int) -> char {
    seq!['0', '1', '2', '3', '4', '5', '6', '7', '8', '9', 'a', 'b', 'c', 'd', 'e', 'f'][d]
}

/// The bytes of the hash that stands where no block came before: 32 zeros.
pub open spec fn zero_hash() -> Seq<u8> {
    Seq::new(32, |i: int| 0u8)
}

/// `sha2::Sha256::digest`: the result is the SHA-256 digest of the bytes
/// handed in, which depends on nothing else.
#[verifier::external_body]
fn sha256_digest(bytes: &[u8]) -> (digest: [u8; 32])
    ensures
        digest@ == sha256(bytes@),
{
    Sha256::digest(bytes).into()
}

/// `hex::encode`: two lower-case hexadecimal digits per byte, in order.
#[verifier::external_body]
fn hex_string(bytes: &[u8]) -> (text: String)
    ensures
        text@ == hex_encoding(bytes@),
{
    hex::encode(bytes)
}

/// A 32-byte digest. Two hashes are equal exactly when their bytes are.
#[derive(Clone, Copy, Debug, Eq)]
pub struct Hash {
    bytes: [u8; 32],
}

/// An account identifier: the hash of a public key.
pub type Address = Hash;

impl View for Hash {
    type V = Seq<u8>;

    closed spec fn view(&self) -> Seq<u8> {
        self.bytes@
    }
}

impl Hash {
    /// Hash of the canonical encoding of `data`.
    pub fn from<T: Encode>(data: &T) -> (hash: Hash)
        ensures
            hash@ == sha256(data.encoding()),
    {
        let bytes = to_bytes(data);
        Self::raw(bytes.as_slice())
    }

    /// Hash of bytes that are already in their canonical form.
    pub fn raw(bytes: &[u8]) -> (hash: Hash)
        ensures
            hash@ == sha256(bytes@),
    {
        Hash { bytes: sha256_digest(bytes) }
    }

    /// The hash made of the given bytes.
    pub fn from_bytes(bytes: [u8; 32]) -> (hash: Hash)
        ensures
            hash@ == bytes@,
    {
        Hash { bytes }
    }

    /// The 32 bytes of the hash.
    pub fn get_bytes(&self) -> (bytes: &[u8; 32])
        ensures
            bytes@ == self@,
    {
        &self.bytes
    }

    /// The hash as 64 lower-case hexadecimal digits.
    pub fn to_hex(&self) -> (text: String)
        ensures
            text@ == hex_encoding(self@),
    {
        hex_string(self.bytes.as_slice())
    }

    /// Every hash has 32 bytes.
    pub proof fn lemma_len(self)
        ensures
            self@.len() == HASH_LEN,
    {
    }

    /// Hashes with the same bytes are the same hash.
    pub proof fn lemma_view_injective(self, other: Hash)
        ensures
            self@ == other@ <==> self == other,
    {
        if self@ == other@ {
            assert(self.bytes =~= other.bytes);
        }
    }
}

impl PartialEq for Hash {
    fn eq(&self, other: &Hash) -> (equal: bool) {
        let mut i: usize = 0;
        while i < 32
            invariant
                i <= 32,
                forall|j: int| 0 <= j < i ==> self.bytes@[j] == other.bytes@[j],
            decreases 32 - i,
        {
            if self.bytes[i] != other.bytes[i] {
                return false;
            }
            i = i + 1;
        }
        proof {
            assert(self.bytes@ =~= other.bytes@);
        }
        true
    }
}

impl vstd::std_specs::cmp::PartialEqSpecImpl for Hash {
    open spec fn obeys_eq_spec() -> bool {
        true
    }

    open spec fn eq_spec(&self, other: &Hash) -> bool {
        self@ == other@
    }
}

impl Default for Hash {
    /// The hash of 32 zero bytes, which stands in front of the first block.
    fn default() -> (hash: Hash)
        ensures
            hash@ == zero_hash(),
    {
        let hash = Hash { bytes: [0u8; 32] };
        proof {
            assert(hash@ =~= zero_hash());
        }
        hash
    }
}

impl Encode for Hash {
    open spec fn encoding(&self) -> Seq<u8> {
        byte_string_encoding(self@)
    }

    fn encode_into(&self, out: &mut Vec<u8>) {
        write_byte_string(out, self.bytes.as_slice());
    }
}

} // verus!
