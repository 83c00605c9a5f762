//! Transactions and their two states: unsigned, then signed.
//!
//! A transaction is authored unsigned. Signing consumes it and gives the
//! signed transaction; nothing else makes one, and nothing leads back.

use crate::util::encoding::{
    byte_string_encoding, optional_byte_string_encoding, u16_encoding, u64_encoding,
    write_byte_string, write_u16, write_u64, Encode,
};
use crate::util::hash::Address;
use crate::util::keys::{
    ed25519_public_key, ed25519_signature, ed25519_verifies, PublicKey, SecretKey, Signature,
};
use vstd::prelude::*;

verus! {

/// The most bytes a payload can hold.
pub const MAX_PAYLOAD_LEN: usize = 256;

/// A strictly positive 64-bit quantity.
#[derive(Clone, Copy, Debug, PartialEq, Eq)]
pub struct Amount {
    units: u64,
}

impl View for Amount {
    type V = u64;

    closed spec fn view(&self) -> u64 {
        self.units
    }
}

impl Amount {
    #[verifier::type_invariant]
    spec fn positive(self) -> bool {
        self.units > 0
    }

    /// The amount of `units`, unless `units` is zero.
    pub fn new(units: u64) -> (amount: Option<Amount>)
        ensures
            units == 0 <==> amount is None,
            amount matches Some(a) ==> a@ == units,
    {
        if units == 0 {
            None
        } else {
            Some(Amount { units })
        }
    }

    /// The quantity, which is never zero.
    pub fn get(&self) -> (units: u64)
        ensures
            units == self@,
            units > 0,
    {
        proof {
            use_type_invariant(self);
        }
        self.units
    }
}

/// The bytes that a transaction carries along: at most `MAX_PAYLOAD_LEN`.
#[derive(Debug, PartialEq, Eq)]
pub struct PayloadBytes {
    bytes: Vec<u8>,
}

/// The optional payload of a transaction.
pub type Payload = Option<PayloadBytes>;

impl View for PayloadBytes {
    type V = Seq<u8>;

    closed spec fn view(&self) -> Seq<u8> {
        self.bytes@
    }
}

impl PayloadBytes {
    #[verifier::type_invariant]
    spec fn bounded(self) -> bool {
        self.bytes@.len() <= MAX_PAYLOAD_LEN
    }

    /// The payload of `bytes`, unless there are more than `MAX_PAYLOAD_LEN`.
    pub fn new(bytes: Vec<u8>) -> (payload: Option<PayloadBytes>)
        ensures
            bytes@.len() > MAX_PAYLOAD_LEN <==> payload is None,
            payload matches Some(p) ==> p@ == bytes@,
    {
        if bytes.len() > MAX_PAYLOAD_LEN {
            None
        } else {
            Some(PayloadBytes { bytes })
        }
    }

    /// The bytes of the payload.
    pub fn as_bytes(&self) -> (bytes: &[u8])
        ensures
            bytes@ == self@,
            bytes@.len() <= MAX_PAYLOAD_LEN,
    {
        proof {
            use_type_invariant(self);
        }
        self.bytes.as_slice()
    }
}

/// The view of an optional payload.
pub open spec fn payload_view(data: Payload) -> Option<Seq<u8>> {
    match data {
        None => None,
        Some(p) => Some(p@),
    }
}

/// A state of a transaction's life cycle.
pub trait SigState {

}

/// The state of a transaction that has been signed: it holds the signature.
#[derive(Debug)]
pub struct Signed {
    sig: Signature,
}

/// The state of a transaction that has not been signed.
#[derive(Debug)]
pub struct Unsigned;

impl SigState for Signed {

}

impl SigState for Unsigned {

}

/// What a transaction says, whatever its state.
#[derive(Debug)]
pub struct TxnCtx {
    sender_pub_key: PublicKey,
    recipient: Address,
    data: Payload,
    version: u16,
    chain_id: u64,
    nonce: u64,
    value: Amount,
    fee: Amount,
}

/// The content of a transaction as plain values.
pub struct TxnCtxView {
    pub sender_pub_key: Seq<u8>,
    pub recipient: Seq<u8>,
    pub data: Option<Seq<u8>>,
    pub version: u16,
    pub chain_id: u64,
    pub nonce: u64,
    pub value: u64,
    pub fee: u64,
}

impl View for TxnCtx {
    type V = TxnCtxView;

    closed spec fn view(&self) -> TxnCtxView {
        TxnCtxView {
            sender_pub_key: self.sender_pub_key@,
            recipient: self.recipient@,
            data: payload_view(self.data),
            version: self.version,
            chain_id: self.chain_id,
            nonce: self.nonce,
            value: self.value@,
            fee: self.fee@,
        }
    }
}

/// The canonical bytes of a transaction's content: the fields in the order
/// of their declaration, the two keys and the payload as byte strings.
pub open spec fn ctx_encoding(ctx: TxnCtxView) -> Seq<u8> {
    byte_string_encoding(ctx.sender_pub_key) + byte_string_encoding(ctx.recipient)
        + optional_byte_string_encoding(ctx.data) + u16_encoding(ctx.version) + u64_encoding(
        ctx.chain_id,
    ) + u64_encoding(ctx.nonce) + u64_encoding(ctx.value) + u64_encoding(ctx.fee)
}

impl Encode for TxnCtx {
    open spec fn encoding(&self) -> Seq<u8> {
        ctx_encoding(self@)
    }

    fn encode_into(&self, out: &mut Vec<u8>) {
        self.sender_pub_key.encode_into(out);
        self.recipient.encode_into(out);
        match &self.data {
            None => {
                out.push(0u8);
            },
            Some(payload) => {
                out.push(1u8);
                write_byte_string(out, payload.as_bytes());
            },
        }
        write_u16(out, self.version);
        write_u64(out, self.chain_id);
        write_u64(out, self.nonce);
        write_u64(out, self.value.get());
        write_u64(out, self.fee.get());
        proof {
            assert(out@ =~= old(out)@ + ctx_encoding(self@));
        }
    }
}

/// A transaction in state `S`.
#[derive(Debug)]
pub struct Transaction<S: SigState> {
    state: S,
    ctx: TxnCtx,
}

/// A sequence of transactions in state `S`.
pub type Transactions<S> = Vec<Transaction<S>>;

impl Transaction<Unsigned> {
    /// Authors a transaction. It is unsigned.
    pub fn new(
        sender_pub_key: PublicKey,
        recipient: Address,
        data: Payload,
        version: u16,
        chain_id: u64,
        nonce: u64,
        value: Amount,
        fee: Amount,
    ) -> (txn: Self)
        ensures
            txn.context() == (TxnCtxView {
                sender_pub_key: sender_pub_key@,
                recipient: recipient@,
                data: payload_view(data),
                version,
                chain_id,
                nonce,
                value: value@,
                fee: fee@,
            }),
    {
        Self {
            state: Unsigned {  },
            ctx: TxnCtx { sender_pub_key, recipient, data, version, chain_id, nonce, value, fee },
        }
    }

    /// Signs the transaction with `key` and gives it back in the signed
    /// state. The signature covers the canonical bytes of the unsigned
    /// transaction; it verifies under the sender's key when `key` is the
    /// secret half of that key.
    pub fn sign(self, key: &SecretKey) -> (signed: Transaction<Signed>)
        ensures
            signed.context() == self.context(),
            signed.signature() == ed25519_signature(key@, self.encoding()),
            ed25519_public_key(key@) == self.context().sender_pub_key
                ==> signed.signature_valid(),
    {
        let mut bytes: Vec<u8> = Vec::new();
        self.encode_into(&mut bytes);
        proof {
            assert(bytes@ =~= self.encoding());
        }
        let sig = key.sign(bytes.as_slice());
        Transaction { state: Signed { sig }, ctx: self.ctx }
    }
}

impl<S: SigState> Transaction<S> {
    /// The content of the transaction.
    pub closed spec fn context(&self) -> TxnCtxView {
        self.ctx@
    }

    /// The fee that the transaction offers.
    pub fn get_fee(&self) -> (fee: Amount)
        ensures
            fee@ == self.context().fee,
    {
        self.ctx.fee
    }

    /// The public key of the sender.
    pub fn get_sender_pub_key(&self) -> (key: PublicKey)
        ensures
            key@ == self.context().sender_pub_key,
    {
        self.ctx.sender_pub_key
    }
}

impl Transaction<Signed> {
    /// The bytes of the signature.
    pub closed spec fn signature(&self) -> Seq<u8> {
        self.state.sig@
    }

    /// Whether the signature is one of the canonical bytes of the content
    /// under the sender's key.
    pub open spec fn signature_valid(&self) -> bool {
        ed25519_verifies(
            self.context().sender_pub_key,
            ctx_encoding(self.context()),
            self.signature(),
        )
    }

    /// The signature of the transaction.
    pub fn get_sig(&self) -> (sig: &Signature)
        ensures
            sig@ == self.signature(),
    {
        &self.state.sig
    }

    /// Checks the signature against the sender's key and the canonical
    /// bytes of the content.
    pub fn verify_signature(&self) -> (valid: bool)
        ensures
            valid == self.signature_valid(),
    {
        let mut bytes: Vec<u8> = Vec::new();
        self.ctx.encode_into(&mut bytes);
        proof {
            assert(bytes@ =~= ctx_encoding(self.context()));
        }
        self.ctx.sender_pub_key.verify(bytes.as_slice(), &self.state.sig)
    }
}

impl Encode for Transaction<Unsigned> {
    /// An unsigned transaction is written as its content.
    open spec fn encoding(&self) -> Seq<u8> {
        ctx_encoding(self.context())
    }

    fn encode_into(&self, out: &mut Vec<u8>) {
        self.ctx.encode_into(out);
    }
}

/// The canonical bytes of a signed transaction: the 64 bytes of the
/// signature, then the content.
pub open spec fn signed_encoding(txn: Transaction<Signed>) -> Seq<u8> {
    txn.signature() + ctx_encoding(txn.context())
}

impl Encode for Transaction<Signed> {
    open spec fn encoding(&self) -> Seq<u8> {
        signed_encoding(*self)
    }

    fn encode_into(&self, out: &mut Vec<u8>) {
        self.state.sig.encode_into(out);
        self.ctx.encode_into(out);
        proof {
            assert(out@ =~= old(out)@ + (self.signature() + ctx_encoding(self.context())));
        }
    }
}

} // verus!
