//! The wallet: keeps a secret key, authors transactions in its own name
//! and signs them.

use crate::util::encoding::{byte_string_encoding, Encode};
use crate::util::hash::{self, sha256, Address};
use crate::util::keys::{ed25519_public_key, ed25519_signature, PublicKey, SecretKey};
use crate::util::random::RandomError;
use crate::util::transaction::{
    payload_view, Amount, Payload, Signed, Transaction, TxnCtxView, Unsigned,
};
use vstd::prelude::*;

verus! {

/// A wallet: one secret key.
pub struct Wallet {
    sig_key: SecretKey,
}

impl View for Wallet {
    type V = Seq<u8>;

    /// The bytes of the secret key.
    closed spec fn view(&self) -> Seq<u8> {
        self.sig_key@
    }
}

impl Wallet {
    /// The wallet that keeps `sig_key`.
    pub fn new(sig_key: SecretKey) -> (wallet: Self)
        ensures
            wallet@ == sig_key@,
    {
        Self { sig_key }
    }

    /// A wallet with a fresh key from the operating system's random source,
    /// unless the source fails.
    pub fn new_random() -> (wallet: Result<Self, RandomError>) {
        match SecretKey::generate() {
            Ok(signing_key) => Ok(Self::new(signing_key)),
            Err(error) => Err(error),
        }
    }

    /// Authors an unsigned transaction whose sender is this wallet.
    pub fn create_transaction(
        &self,
        recipient: Address,
        data: Payload,
        version: u16,
        chain_id: u64,
        nonce: u64,
        value: Amount,
        fee: Amount,
    ) -> (txn: Transaction<Unsigned>)
        ensures
            txn.context() == (TxnCtxView {
                sender_pub_key: ed25519_public_key(self@),
                recipient: recipient@,
                data: payload_view(data),
                version,
                chain_id,
                nonce,
                value: value@,
                fee: fee@,
            }),
    {
        Transaction::new(
            self.sig_key.public_key(),
            recipient,
            data,
            version,
            chain_id,
            nonce,
            value,
            fee,
        )
    }

    /// Signs `txn` with the key of this wallet. The signature is valid when
    /// this wallet is the sender of `txn`.
    pub fn sign(&mut self, txn: Transaction<Unsigned>) -> (signed: Transaction<Signed>)
        ensures
            final(self)@ == old(self)@,
            signed.context() == txn.context(),
            signed.signature() == ed25519_signature(old(self)@, txn.encoding()),
            txn.context().sender_pub_key == ed25519_public_key(old(self)@)
                ==> signed.signature_valid(),
    {
        txn.sign(&self.sig_key)
    }

    /// The public key of this wallet.
    pub fn get_pub_key(&self) -> (key: PublicKey)
        ensures
            key@ == ed25519_public_key(self@),
    {
        self.sig_key.public_key()
    }

    /// The address of this wallet: the hash of its public key.
    pub fn get_address(&self) -> (address: Address)
        ensures
            address@ == sha256(byte_string_encoding(ed25519_public_key(self@))),
    {
        hash::Hash::from(&self.get_pub_key())
    }
}

} // verus!
