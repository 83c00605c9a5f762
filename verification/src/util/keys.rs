//! Ed25519 keys and signatures, held as their bytes.

use crate::util::encoding::{byte_string_encoding, write_byte_string, write_raw, Encode};
use ed25519_dalek::{Signer, SigningKey, Verifier, VerifyingKey};
use crate::util::random::{random_bytes, RandomError};
use vstd::prelude::*;

verus! {

/// The public key that belongs to the secret key `secret`.
pub uninterp spec fn ed25519_public_key(secret: Seq<u8>) -> Seq<u8>;

/// The signature that the secret key `secret` gives for `message`.
pub uninterp spec fn ed25519_signature(secret: Seq<u8>, message: Seq<u8>) -> Seq<u8>;

/// Whether `public` decodes to a key under which `signature` is a valid
/// signature of `message`.
pub uninterp spec fn ed25519_verifies(
    public: Seq<u8>,
    message: Seq<u8>,
    signature: Seq<u8>,
) -> bool;

/// `SigningKey::verifying_key`, on the signing key that
/// `SigningKey::from_bytes` makes of the 32 secret bytes: the public half of
/// the key pair, which the secret bytes alone determine.
#[verifier::external_body]
fn derive_public_key(secret: &[u8; 32]) -> (public: [u8; 32])
    ensures
        public@ == ed25519_public_key(secret@),
{
    SigningKey::from_bytes(secret).verifying_key().to_bytes()
}

/// `Signer::sign` of `SigningKey`: Ed25519 signing draws no randomness, so
/// the secret bytes and the message determine the signature, and the
/// signature verifies under the public half of the same key pair.
#[verifier::external_body]
fn sign_message(secret: &[u8; 32], message: &[u8]) -> (signature: [u8; 64])
    ensures
        signature@ == ed25519_signature(secret@, message@),
        ed25519_verifies(ed25519_public_key(secret@), message@, signature@),
{
    SigningKey::from_bytes(secret).sign(message).to_bytes()
}

/// `Verifier::verify` of `VerifyingKey`, on the key that
/// `VerifyingKey::from_bytes` decodes: true when the bytes decode to a key
/// and the signature is valid for the message under it, false otherwise.
#[verifier::external_body]
fn verify_message(public: &[u8; 32], message: &[u8], signature: &[u8; 64]) -> (valid: bool)
    ensures
        valid == ed25519_verifies(public@, message@, signature@),
{
    match VerifyingKey::from_bytes(public) {
        Ok(key) => match key.verify(message, &ed25519_dalek::Signature::from_bytes(signature)) {
            Ok(()) => true,
            Err(_) => false,
        },
        Err(_) => false,
    }
}

/// The public half of a key pair: 32 bytes.
#[derive(Clone, Copy, Debug, PartialEq, Eq)]
pub struct PublicKey {
    bytes: [u8; 32],
}

/// The secret half of a key pair: 32 bytes.
#[derive(Clone)]
pub struct SecretKey {
    bytes: [u8; 32],
}

/// A detached signature: 64 bytes.
#[derive(Clone, Copy, Debug, PartialEq, Eq)]
pub struct Signature {
    bytes: [u8; 64],
}

impl View for PublicKey {
    type V = Seq<u8>;

    closed spec fn view(&self) -> Seq<u8> {
        self.bytes@
    }
}

impl View for SecretKey {
    type V = Seq<u8>;

    closed spec fn view(&self) -> Seq<u8> {
        self.bytes@
    }
}

impl View for Signature {
    type V = Seq<u8>;

    closed spec fn view(&self) -> Seq<u8> {
        self.bytes@
    }
}

impl PublicKey {
    /// The public key made of the given bytes. Bytes that decode to no key
    /// verify no signature.
    pub fn from_bytes(bytes: [u8; 32]) -> (key: PublicKey)
        ensures
            key@ == bytes@,
    {
        PublicKey { bytes }
    }

    /// The 32 bytes of the key.
    pub fn to_bytes(&self) -> (bytes: [u8; 32])
        ensures
            bytes@ == self@,
    {
        self.bytes
    }

    /// Whether `signature` is a valid signature of `message` under this key.
    pub fn verify(&self, message: &[u8], signature: &Signature) -> (valid: bool)
        ensures
            valid == ed25519_verifies(self@, message@, signature@),
    {
        verify_message(&self.bytes, message, &signature.bytes)
    }

    /// Every public key has 32 bytes.
    pub proof fn lemma_len(self)
        ensures
            self@.len() == 32,
    {
    }
}

impl SecretKey {
    /// The secret key made of the given bytes.
    pub fn from_bytes(bytes: [u8; 32]) -> (key: SecretKey)
        ensures
            key@ == bytes@,
    {
        SecretKey { bytes }
    }

    /// A fresh secret key from the operating system's random source, unless
    /// the source fails.
    pub fn generate() -> (key: Result<SecretKey, RandomError>) {
        match random_bytes() {
            Ok(bytes) => Ok(SecretKey::from_bytes(bytes)),
            Err(error) => Err(error),
        }
    }

    /// The public key of the pair.
    pub fn public_key(&self) -> (public: PublicKey)
        ensures
            public@ == ed25519_public_key(self@),
    {
        PublicKey { bytes: derive_public_key(&self.bytes) }
    }

    /// Signs `message`. The signature verifies under the public key of the
    /// pair.
    pub fn sign(&self, message: &[u8]) -> (signature: Signature)
        ensures
            signature@ == ed25519_signature(self@, message@),
            ed25519_verifies(ed25519_public_key(self@), message@, signature@),
    {
        Signature { bytes: sign_message(&self.bytes, message) }
    }
}

impl Signature {
    /// The signature made of the given bytes.
    pub fn from_bytes(bytes: [u8; 64]) -> (signature: Signature)
        ensures
            signature@ == bytes@,
    {
        Signature { bytes }
    }

    /// The 64 bytes of the signature.
    pub fn to_bytes(&self) -> (bytes: [u8; 64])
        ensures
            bytes@ == self@,
    {
        self.bytes
    }

    /// Every signature has 64 bytes.
    pub proof fn lemma_len(self)
        ensures
            self@.len() == 64,
    {
    }
}

impl Encode for PublicKey {
    /// A public key is written as a byte string.
    open spec fn encoding(&self) -> Seq<u8> {
        byte_string_encoding(self@)
    }

    fn encode_into(&self, out: &mut Vec<u8>) {
        write_byte_string(out, self.bytes.as_slice());
    }
}

impl Encode for Signature {
    /// A signature is written as its 64 bytes, with no length in front.
    open spec fn encoding(&self) -> Seq<u8> {
        self@
    }

    fn encode_into(&self, out: &mut Vec<u8>) {
        write_raw(out, self.bytes.as_slice());
    }
}

} // verus!
