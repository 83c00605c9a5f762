//! Blocks: headers, body, the proof-of-work search for a nonce, and the
//! rules that a block is held to.

use crate::util::clock::{unix_time, ClockError};
use crate::util::encoding::{
    byte_string_encoding, i64_encoding, u64_encoding, uleb128, write_byte_string, write_i64,
    write_u64, write_uleb128, Encode, MAX_SEQUENCE_LENGTH,
};
use crate::util::hash::{self, sha256, HASH_LEN};
use crate::util::random::RandomError;
use crate::util::transaction::{signed_encoding, Signed, Transaction, Transactions};
use vstd::prelude::*;
use vstd::utf8::encode_utf8;

verus! {

/// Why a block could not be made.
#[derive(Debug, Clone, PartialEq, Eq)]
pub enum BlockError {
    /// The system clock stands before the epoch.
    Clock(ClockError),
    /// No nonce gives the headers a hash that meets the target.
    NonceExhausted,
    /// The random source failed when a chain asked it for an identifier.
    Random(RandomError),
}

/// The headers of a block.
#[derive(Debug)]
pub struct BlockHeaders {
    version: String,
    time_stamp: i64,
    previous_block_hash: hash::Hash,
    payload_hash: hash::Hash,
    target: usize,
    nonce: u64,
}

/// The headers of a block as plain values.
pub struct HeadersView {
    pub version: Seq<char>,
    pub time_stamp: i64,
    pub previous_block_hash: Seq<u8>,
    pub payload_hash: Seq<u8>,
    pub target: usize,
    pub nonce: u64,
}

/// The canonical bytes of headers: the version as a string, the time stamp,
/// the two hashes as byte strings, then target and nonce as 64-bit integers.
pub open spec fn headers_encoding(h: HeadersView) -> Seq<u8> {
    byte_string_encoding(encode_utf8(h.version)) + i64_encoding(h.time_stamp)
        + byte_string_encoding(h.previous_block_hash) + byte_string_encoding(h.payload_hash)
        + u64_encoding(h.target as u64) + u64_encoding(h.nonce)
}

/// The hash of headers.
pub open spec fn headers_hash(h: HeadersView) -> Seq<u8> {
    sha256(headers_encoding(h))
}

/// Whether `hash` begins with `target` zero bytes. A hash has `HASH_LEN`
/// bytes, so none meets a larger target.
pub open spec fn meets_target(hash: Seq<u8>, target: nat) -> bool {
    &&& target <= HASH_LEN
    &&& target <= hash.len()
    &&& forall|i: int| 0 <= i < target ==> hash[i] == 0
}

/// `h` with another nonce.
pub open spec fn with_nonce(h: HeadersView, nonce: u64) -> HeadersView {
    HeadersView { nonce, ..h }
}

/// Whether the hash of `h` meets the target of `h`.
pub open spec fn mined(h: HeadersView) -> bool {
    meets_target(headers_hash(h), h.target as nat)
}

/// Whether no nonce from `from` up to, not including, `to` lets the hash
/// of `h` meet its target.
pub open spec fn none_mined_between(h: HeadersView, from: u64, to: u64) -> bool {
    forall|n: u64| from <= n < to ==> !mined(#[trigger] with_nonce(h, n))
}

/// Whether no nonce from `from` upwards lets the hash of `h` meet its
/// target.
pub open spec fn none_mined_from(h: HeadersView, from: u64) -> bool {
    forall|n: u64| n >= from ==> !mined(#[trigger] with_nonce(h, n))
}

/// Whether the nonce of `h` is the first, counting from zero, with which
/// the hash of `h` meets its target.
pub open spec fn first_nonce(h: HeadersView) -> bool {
    &&& mined(h)
    &&& none_mined_between(h, 0, h.nonce)
}

/// Whether no nonce at all lets the hash of `h` meet its target.
pub open spec fn no_nonce(h: HeadersView) -> bool {
    none_mined_from(h, 0)
}

/// Whether `hash` begins with `target` zero bytes.
pub fn leading_zero_bytes(hash: &hash::Hash, target: usize) -> (met: bool)
    ensures
        met == meets_target(hash@, target as nat),
{
    proof {
        hash.lemma_len();
    }
    if target > HASH_LEN {
        return false;
    }
    let bytes = hash.get_bytes();
    let mut i: usize = 0;
    while i < target
        invariant
            i <= target <= HASH_LEN,
            bytes@ == hash@,
            hash@.len() == HASH_LEN,
            forall|j: int| 0 <= j < i ==> hash@[j] == 0,
        decreases target - i,
    {
        if bytes[i] != 0 {
            return false;
        }
        i = i + 1;
    }
    true
}

impl View for BlockHeaders {
    type V = HeadersView;

    closed spec fn view(&self) -> HeadersView {
        HeadersView {
            version: self.version@,
            time_stamp: self.time_stamp,
            previous_block_hash: self.previous_block_hash@,
            payload_hash: self.payload_hash@,
            target: self.target,
            nonce: self.nonce,
        }
    }
}

impl BlockHeaders {
    #[verifier::type_invariant]
    spec fn version_fits(self) -> bool {
        encode_utf8(self.version@).len() <= MAX_SEQUENCE_LENGTH
    }

    /// Headers of version `v1.0` that have not been mined: the nonce is zero.
    pub fn new(
        time_stamp: i64,
        previous_block_hash: hash::Hash,
        payload_hash: hash::Hash,
        target: usize,
    ) -> (headers: Self)
        ensures
            headers@ == (HeadersView {
                version: "v1.0"@,
                time_stamp,
                previous_block_hash: previous_block_hash@,
                payload_hash: payload_hash@,
                target,
                nonce: 0,
            }),
    {
        let version = String::from_str("v1.0");
        proof {
            reveal_strlit("v1.0");
            vstd::utf8::is_ascii_chars_encode_utf8(version@);
        }
        Self { version, time_stamp, previous_block_hash, payload_hash, target, nonce: 0 }
    }

    /// Headers made of the given parts, unless the version is too long a
    /// string to be framed.
    pub fn from_parts(
        version: String,
        time_stamp: i64,
        previous_block_hash: hash::Hash,
        payload_hash: hash::Hash,
        target: usize,
        nonce: u64,
    ) -> (headers: Option<Self>)
        ensures
            headers is Some <==> encode_utf8(version@).len() <= MAX_SEQUENCE_LENGTH,
            headers matches Some(h) ==> h@ == (HeadersView {
                version: version@,
                time_stamp,
                previous_block_hash: previous_block_hash@,
                payload_hash: payload_hash@,
                target,
                nonce,
            }),
    {
        if version.as_str().as_bytes().len() > MAX_SEQUENCE_LENGTH {
            None
        } else {
            Some(Self { version, time_stamp, previous_block_hash, payload_hash, target, nonce })
        }
    }

    /// The version tag.
    pub fn version(&self) -> (version: &String)
        ensures
            version@ == self@.version,
    {
        &self.version
    }

    /// The time stamp, in seconds since the epoch.
    pub fn time_stamp(&self) -> (time_stamp: i64)
        ensures
            time_stamp == self@.time_stamp,
    {
        self.time_stamp
    }

    /// The stored hash of the block before.
    pub fn previous_block_hash(&self) -> (hash: &hash::Hash)
        ensures
            hash@ == self@.previous_block_hash,
    {
        &self.previous_block_hash
    }

    /// The stored hash of the body.
    pub fn payload_hash(&self) -> (hash: &hash::Hash)
        ensures
            hash@ == self@.payload_hash,
    {
        &self.payload_hash
    }

    /// The number of leading zero bytes asked of the hash of the headers.
    pub fn target(&self) -> (target: usize)
        ensures
            target == self@.target,
    {
        self.target
    }

    /// The nonce.
    pub fn nonce(&self) -> (nonce: u64)
        ensures
            nonce == self@.nonce,
    {
        self.nonce
    }

    /// Searches, from the nonce that the headers hold upwards, for the first
    /// nonce with which the hash of the headers meets the target, and leaves
    /// it in the headers. Gives false, and leaves the headers as they were,
    /// when no nonce from there on does. A target beyond the length of a
    /// hash can never be met and is not searched for.
    pub fn compute_nonce(&mut self) -> (found: bool)
        requires
            old(self)@.target <= HASH_LEN,
        ensures
            final(self)@ == with_nonce(old(self)@, final(self)@.nonce),
            found ==> {
                &&& final(self)@.nonce >= old(self)@.nonce
                &&& mined(final(self)@)
                &&& none_mined_between(old(self)@, old(self)@.nonce, final(self)@.nonce)
            },
            !found ==> final(self)@ == old(self)@ && none_mined_from(
                old(self)@,
                old(self)@.nonce,
            ),
    {
        proof {
            use_type_invariant(&*self);
        }
        let ghost start = self@;
        let kept = self.nonce;
        let mut nonce: u64 = kept;
        loop
            invariant
                start == old(self)@,
                kept == start.nonce,
                kept <= nonce,
                self@ == with_nonce(start, self@.nonce),
                encode_utf8(self.version@).len() <= MAX_SEQUENCE_LENGTH,
                none_mined_between(start, kept, nonce),
            decreases u64::MAX - nonce,
        {
            self.nonce = nonce;
            let hash = hash::Hash::from(&*self);
            assert(self@ == with_nonce(start, nonce));
            if leading_zero_bytes(&hash, self.target) {
                return true;
            }
            if nonce == u64::MAX {
                assert forall|n: u64| n >= kept implies !mined(#[trigger] with_nonce(start, n)) by {
                    if n < nonce {
                    } else {
                        assert(with_nonce(start, n) == self@);
                    }
                }
                self.nonce = kept;
                assert(self@ == start);
                return false;
            }
            nonce = nonce + 1;
        }
    }
}

impl Encode for BlockHeaders {
    open spec fn encoding(&self) -> Seq<u8> {
        headers_encoding(self@)
    }

    fn encode_into(&self, out: &mut Vec<u8>) {
        proof {
            use_type_invariant(self);
        }
        write_byte_string(out, self.version.as_str().as_bytes());
        write_i64(out, self.time_stamp);
        self.previous_block_hash.encode_into(out);
        self.payload_hash.encode_into(out);
        write_u64(out, self.target as u64);
        write_u64(out, self.nonce);
        proof {
            assert(out@ =~= old(out)@ + headers_encoding(self@));
        }
    }
}

/// The body of a block: its transactions, in order.
#[derive(Debug)]
pub struct BlockBody {
    transactions: Transactions<Signed>,
}

impl View for BlockBody {
    type V = Seq<Transaction<Signed>>;

    closed spec fn view(&self) -> Seq<Transaction<Signed>> {
        self.transactions@
    }
}

/// The canonical bytes of the transactions, one after another.
pub open spec fn transactions_encoding(txns: Seq<Transaction<Signed>>) -> Seq<u8>
    decreases txns.len(),
{
    if txns.len() == 0 {
        Seq::empty()
    } else {
        transactions_encoding(txns.drop_last()) + signed_encoding(txns.last())
    }
}

/// The canonical bytes of a body: the number of transactions, then the
/// transactions.
pub open spec fn body_encoding(txns: Seq<Transaction<Signed>>) -> Seq<u8> {
    uleb128(txns.len()) + transactions_encoding(txns)
}

impl BlockBody {
    #[verifier::type_invariant]
    spec fn length_fits(self) -> bool {
        self.transactions@.len() <= MAX_SEQUENCE_LENGTH
    }

    /// The body that holds `transactions`.
    pub fn new(transactions: Transactions<Signed>) -> (body: Self)
        requires
            transactions@.len() <= MAX_SEQUENCE_LENGTH,
        ensures
            body@ == transactions@,
    {
        Self { transactions }
    }

    /// The transactions of the body.
    pub fn transactions(&self) -> (txns: &Transactions<Signed>)
        ensures
            txns@ == self@,
            txns@.len() <= MAX_SEQUENCE_LENGTH,
    {
        proof {
            use_type_invariant(self);
        }
        &self.transactions
    }

    /// Gives the transactions back.
    pub fn into_transactions(self) -> (txns: Transactions<Signed>)
        ensures
            txns@ == self@,
            txns@.len() <= MAX_SEQUENCE_LENGTH,
    {
        proof {
            use_type_invariant(&self);
        }
        self.transactions
    }
}

impl Encode for BlockBody {
    open spec fn encoding(&self) -> Seq<u8> {
        body_encoding(self@)
    }

    fn encode_into(&self, out: &mut Vec<u8>) {
        proof {
            use_type_invariant(self);
        }
        let count = self.transactions.len();
        write_uleb128(out, count as u32);
        let ghost framed = out@;
        let mut i: usize = 0;
        while i < count
            invariant
                i <= count == self.transactions@.len(),
                out@ == framed + transactions_encoding(self.transactions@.subrange(0, i as int)),
            decreases count - i,
        {
            proof {
                let upto = self.transactions@.subrange(0, i + 1);
                assert(upto.drop_last() =~= self.transactions@.subrange(0, i as int));
                assert(upto.last() == self.transactions@[i as int]);
            }
            self.transactions[i].encode_into(out);
            i = i + 1;
        }
        proof {
            assert(self.transactions@.subrange(0, count as int) =~= self.transactions@);
            assert(out@ =~= old(out)@ + body_encoding(self@));
        }
    }
}

/// A block: mined headers, a body, and the hash of the headers.
#[derive(Debug)]
pub struct Block {
    headers: BlockHeaders,
    body: BlockBody,
    block_hash: hash::Hash,
}

/// A block as plain values.
pub struct BlockView {
    pub headers: HeadersView,
    pub transactions: Seq<Transaction<Signed>>,
    pub block_hash: Seq<u8>,
}

impl View for Block {
    type V = BlockView;

    closed spec fn view(&self) -> BlockView {
        BlockView {
            headers: self.headers@,
            transactions: self.body@,
            block_hash: self.block_hash@,
        }
    }
}

/// The view of the block before this one, where there is one.
pub open spec fn previous_view(previous: Option<&Block>) -> Option<BlockView> {
    match previous {
        None => None,
        Some(p) => Some(p@),
    }
}

/// The rule of the block hash: the stored hash is the hash of the headers.
pub open spec fn block_hash_valid(b: BlockView) -> bool {
    b.block_hash == headers_hash(b.headers)
}

/// The rule of the payload hash: the hash in the headers is the hash of the
/// body.
pub open spec fn payload_hash_valid(b: BlockView) -> bool {
    b.headers.payload_hash == sha256(body_encoding(b.transactions))
}

/// The rule of the link: the previous hash in the headers is the hash of
/// the block before. It holds of a block with none before it.
pub open spec fn previous_hash_valid(b: BlockView, previous: Option<BlockView>) -> bool {
    previous matches Some(p) ==> b.headers.previous_block_hash == p.block_hash
}

/// The rule of time: the block is strictly later than the block before. It
/// holds of a block with none before it.
pub open spec fn time_valid(b: BlockView, previous: Option<BlockView>) -> bool {
    previous matches Some(p) ==> b.headers.time_stamp > p.headers.time_stamp
}

/// All four rules.
pub open spec fn block_valid(b: BlockView, previous: Option<BlockView>) -> bool {
    &&& block_hash_valid(b)
    &&& payload_hash_valid(b)
    &&& previous_hash_valid(b, previous)
    &&& time_valid(b, previous)
}

/// A rule that a block breaks, with what the rule asks for and what the
/// block holds.
#[derive(Debug, Clone, Copy, PartialEq, Eq)]
pub enum ValidationError {
    /// The stored block hash is not the hash of the headers.
    BlockHash { expected: hash::Hash, found: hash::Hash },
    /// The payload hash in the headers is not the hash of the body.
    PayloadHash { expected: hash::Hash, found: hash::Hash },
    /// The previous hash in the headers is not the hash of the block before.
    PreviousHash { expected: hash::Hash, found: hash::Hash },
    /// The time stamp is not later than that of the block before.
    Time { previous: i64, stamp: i64 },
}

/// A broken rule as plain values.
pub enum Failure {
    BlockHash { expected: Seq<u8>, found: Seq<u8> },
    PayloadHash { expected: Seq<u8>, found: Seq<u8> },
    PreviousHash { expected: Seq<u8>, found: Seq<u8> },
    Time { previous: i64, stamp: i64 },
}

impl View for ValidationError {
    type V = Failure;

    open spec fn view(&self) -> Failure {
        match *self {
            ValidationError::BlockHash { expected, found } => Failure::BlockHash {
                expected: expected@,
                found: found@,
            },
            ValidationError::PayloadHash { expected, found } => Failure::PayloadHash {
                expected: expected@,
                found: found@,
            },
            ValidationError::PreviousHash { expected, found } => Failure::PreviousHash {
                expected: expected@,
                found: found@,
            },
            ValidationError::Time { previous, stamp } => Failure::Time { previous, stamp },
        }
    }
}

/// What the rule of the block hash reports of `b` when `b` breaks it.
pub open spec fn block_hash_failure(b: BlockView) -> Failure {
    Failure::BlockHash { expected: headers_hash(b.headers), found: b.block_hash }
}

/// What the rule of the payload hash reports of `b` when `b` breaks it.
pub open spec fn payload_hash_failure(b: BlockView) -> Failure {
    Failure::PayloadHash {
        expected: sha256(body_encoding(b.transactions)),
        found: b.headers.payload_hash,
    }
}

/// What the rule of the link reports of `b` when `b` breaks it after `p`.
pub open spec fn previous_hash_failure(b: BlockView, p: BlockView) -> Failure {
    Failure::PreviousHash { expected: p.block_hash, found: b.headers.previous_block_hash }
}

/// What the rule of time reports of `b` when `b` breaks it after `p`.
pub open spec fn time_failure(b: BlockView, p: BlockView) -> Failure {
    Failure::Time { previous: p.headers.time_stamp, stamp: b.headers.time_stamp }
}

/// Every rule that `b` breaks, in the order block hash, payload hash, link,
/// time.
pub open spec fn block_failures(b: BlockView, previous: Option<BlockView>) -> Seq<Failure> {
    (if block_hash_valid(b) {
        Seq::empty()
    } else {
        seq![block_hash_failure(b)]
    }) + (if payload_hash_valid(b) {
        Seq::empty()
    } else {
        seq![payload_hash_failure(b)]
    }) + (if previous_hash_valid(b, previous) {
        Seq::empty()
    } else {
        seq![previous_hash_failure(b, previous.unwrap())]
    }) + (if time_valid(b, previous) {
        Seq::empty()
    } else {
        seq![time_failure(b, previous.unwrap())]
    })
}

/// The views of the errors, in order.
pub open spec fn failures_of(errors: Seq<ValidationError>) -> Seq<Failure> {
    errors.map_values(|e: ValidationError| e@)
}

/// The headers that mining starts from: version `v1.0`, the hash of the
/// body as payload hash, and nonce zero.
pub open spec fn fresh_headers(
    target: usize,
    txns: Seq<Transaction<Signed>>,
    previous_block_hash: Seq<u8>,
    time_stamp: i64,
) -> HeadersView {
    HeadersView {
        version: "v1.0"@,
        time_stamp,
        previous_block_hash,
        payload_hash: sha256(body_encoding(txns)),
        target,
        nonce: 0,
    }
}

/// Whether `b` is the block that mining makes of the transactions `txns`
/// after a block of hash `previous_block_hash`, against `target`, at the
/// time that `b` is stamped with.
pub open spec fn freshly_mined(
    b: BlockView,
    target: usize,
    txns: Seq<Transaction<Signed>>,
    previous_block_hash: Seq<u8>,
) -> bool {
    &&& b.transactions == txns
    &&& b.headers == with_nonce(
        fresh_headers(target, txns, previous_block_hash, b.headers.time_stamp),
        b.headers.nonce,
    )
    &&& first_nonce(b.headers)
    &&& block_hash_valid(b)
}

impl Block {
    /// Mines a block of the transactions `txns` after a block of hash
    /// `prev_block_hash`, against `target`, stamped with the time of the
    /// system clock.
    pub fn new(target: usize, txns: Transactions<Signed>, prev_block_hash: hash::Hash) -> (made:
        Result<Block, BlockError>)
        requires
            txns@.len() <= MAX_SEQUENCE_LENGTH,
        ensures
            match made {
                Ok(block) => freshly_mined(block@, target, txns@, prev_block_hash@)
                    && block_valid(block@, None),
                Err(BlockError::NonceExhausted) => exists|time_stamp: i64|
                    no_nonce(#[trigger] fresh_headers(target, txns@, prev_block_hash@, time_stamp)),
                Err(BlockError::Clock(_)) => true,
                Err(BlockError::Random(_)) => false,
            },
            target == 0 ==> !(made matches Err(BlockError::NonceExhausted)),
    {
        match unix_time() {
            Ok(time_stamp) => Self::new_at(target, txns, prev_block_hash, time_stamp),
            Err(error) => Err(BlockError::Clock(error)),
        }
    }

    /// Mines a block of the transactions `txns` after a block of hash
    /// `prev_block_hash`, against `target`, stamped with `time_stamp`.
    pub fn new_at(
        target: usize,
        txns: Transactions<Signed>,
        prev_block_hash: hash::Hash,
        time_stamp: i64,
    ) -> (made: Result<Block, BlockError>)
        requires
            txns@.len() <= MAX_SEQUENCE_LENGTH,
        ensures
            match made {
                Ok(block) => {
                    &&& freshly_mined(block@, target, txns@, prev_block_hash@)
                    &&& block@.headers.time_stamp == time_stamp
                    &&& block_valid(block@, None)
                },
                Err(error) => {
                    &&& error == BlockError::NonceExhausted
                    &&& no_nonce(fresh_headers(target, txns@, prev_block_hash@, time_stamp))
                },
            },
            target == 0 ==> (made matches Ok(block) && block@.headers.nonce == 0),
    {
        if target > HASH_LEN {
            return Err(BlockError::NonceExhausted);
        }
        let body = BlockBody::new(txns);
        let payload_hash = hash::Hash::from(&body);
        let mut headers = BlockHeaders::new(time_stamp, prev_block_hash, payload_hash, target);
        let ghost fresh = headers@;
        let found = headers.compute_nonce();
        proof {
            if found {
                assert forall|n: u64| 0 <= n < headers@.nonce implies !mined(
                    #[trigger] with_nonce(headers@, n),
                ) by {
                    assert(with_nonce(headers@, n) == with_nonce(fresh, n));
                }
            }
            if target == 0 {
                lemma_zero_target_mines_at_once(fresh);
                lemma_zero_target_mines_at_once(headers@);
            }
        }
        if found {
            let block_hash = hash::Hash::from(&headers);
            Ok(Block { headers, body, block_hash })
        } else {
            Err(BlockError::NonceExhausted)
        }
    }

    /// Mines a first block: no transactions, and the zero hash where the
    /// hash of the block before would stand.
    pub fn new_genesis_block(target: usize) -> (made: Result<Block, BlockError>)
        ensures
            match made {
                Ok(block) => freshly_mined(block@, target, Seq::empty(), hash::zero_hash())
                    && block_valid(block@, None),
                Err(BlockError::NonceExhausted) => exists|time_stamp: i64|
                    no_nonce(
                        #[trigger] fresh_headers(
                            target,
                            Seq::empty(),
                            hash::zero_hash(),
                            time_stamp,
                        ),
                    ),
                Err(BlockError::Clock(_)) => true,
                Err(BlockError::Random(_)) => false,
            },
            target == 0 ==> !(made matches Err(BlockError::NonceExhausted)),
    {
        Self::new(target, Vec::new(), hash::Hash::default())
    }

    /// A block made of the given parts, whatever they hold: a block from
    /// elsewhere, to be held to the rules.
    pub fn from_parts(headers: BlockHeaders, body: BlockBody, block_hash: hash::Hash) -> (block:
        Block)
        ensures
            block@ == (BlockView {
                headers: headers@,
                transactions: body@,
                block_hash: block_hash@,
            }),
    {
        Block { headers, body, block_hash }
    }

    /// Takes the block apart.
    pub fn into_parts(self) -> (parts: (BlockHeaders, BlockBody, hash::Hash))
        ensures
            self@ == (BlockView {
                headers: parts.0@,
                transactions: parts.1@,
                block_hash: parts.2@,
            }),
    {
        (self.headers, self.body, self.block_hash)
    }

    /// The headers of the block.
    pub fn headers(&self) -> (headers: &BlockHeaders)
        ensures
            headers@ == self@.headers,
    {
        &self.headers
    }

    /// The stored hash of the block.
    pub fn block_hash(&self) -> (hash: &hash::Hash)
        ensures
            hash@ == self@.block_hash,
    {
        &self.block_hash
    }

    /// The stored hash of the block before.
    pub fn previous_block_hash(&self) -> (hash: &hash::Hash)
        ensures
            hash@ == self@.headers.previous_block_hash,
    {
        &self.headers.previous_block_hash
    }

    /// The stored hash of the body.
    pub fn payload_hash(&self) -> (hash: &hash::Hash)
        ensures
            hash@ == self@.headers.payload_hash,
    {
        &self.headers.payload_hash
    }

    /// The time stamp of the block, in seconds since the epoch.
    pub fn time_stamp(&self) -> (time_stamp: i64)
        ensures
            time_stamp == self@.headers.time_stamp,
    {
        self.headers.time_stamp
    }

    /// The transactions of the block.
    pub fn data(&self) -> (txns: &Transactions<Signed>)
        ensures
            txns@ == self@.transactions,
    {
        self.body.transactions()
    }

    /// Holds the block to the rule of the block hash.
    pub fn validate_block_hash(&self) -> (verdict: Result<(), ValidationError>)
        ensures
            verdict is Ok <==> block_hash_valid(self@),
            verdict matches Err(error) ==> error@ == block_hash_failure(self@),
    {
        let expected = hash::Hash::from(&self.headers);
        if expected == self.block_hash {
            Ok(())
        } else {
            Err(ValidationError::BlockHash { expected, found: self.block_hash })
        }
    }

    /// Holds the block to the rule of the payload hash.
    pub fn validate_payload_hash(&self) -> (verdict: Result<(), ValidationError>)
        ensures
            verdict is Ok <==> payload_hash_valid(self@),
            verdict matches Err(error) ==> error@ == payload_hash_failure(self@),
    {
        let expected = hash::Hash::from(&self.body);
        if expected == self.headers.payload_hash {
            Ok(())
        } else {
            Err(ValidationError::PayloadHash { expected, found: self.headers.payload_hash })
        }
    }

    /// Holds the block to the rule of the link, after `previous`.
    pub fn validate_previous_hash(&self, previous: Option<&Block>) -> (verdict: Result<
        (),
        ValidationError,
    >)
        ensures
            verdict is Ok <==> previous_hash_valid(self@, previous_view(previous)),
            verdict matches Err(error) ==> error@ == previous_hash_failure(
                self@,
                previous_view(previous).unwrap(),
            ),
    {
        match previous {
            None => Ok(()),
            Some(before) => {
                if self.headers.previous_block_hash == before.block_hash {
                    Ok(())
                } else {
                    Err(
                        ValidationError::PreviousHash {
                            expected: before.block_hash,
                            found: self.headers.previous_block_hash,
                        },
                    )
                }
            },
        }
    }

    /// Holds the block to the rule of time, after `previous`.
    pub fn validate_time(&self, previous: Option<&Block>) -> (verdict: Result<(), ValidationError>)
        ensures
            verdict is Ok <==> time_valid(self@, previous_view(previous)),
            verdict matches Err(error) ==> error@ == time_failure(
                self@,
                previous_view(previous).unwrap(),
            ),
    {
        match previous {
            None => Ok(()),
            Some(before) => {
                if self.headers.time_stamp > before.headers.time_stamp {
                    Ok(())
                } else {
                    Err(
                        ValidationError::Time {
                            previous: before.headers.time_stamp,
                            stamp: self.headers.time_stamp,
                        },
                    )
                }
            },
        }
    }

    /// Holds the block to all four rules, after `previous`, and reports
    /// every rule that it breaks.
    pub fn validate_block(&self, previous: Option<&Block>) -> (verdict: Result<
        (),
        Vec<ValidationError>,
    >)
        ensures
            verdict is Ok <==> block_valid(self@, previous_view(previous)),
            verdict matches Err(errors) ==> failures_of(errors@) == block_failures(
                self@,
                previous_view(previous),
            ),
    {
        let mut errors: Vec<ValidationError> = Vec::new();
        if let Err(error) = self.validate_block_hash() {
            errors.push(error);
        }
        if let Err(error) = self.validate_payload_hash() {
            errors.push(error);
        }
        if let Err(error) = self.validate_previous_hash(previous) {
            errors.push(error);
        }
        if let Err(error) = self.validate_time(previous) {
            errors.push(error);
        }
        proof {
            assert(failures_of(errors@) =~= block_failures(self@, previous_view(previous)));
        }
        if errors.len() == 0 {
            Ok(())
        } else {
            Err(errors)
        }
    }
}

/// A freshly mined block keeps the rules of the block hash and of the
/// payload hash. It keeps all four after a block whose hash it was linked
/// to and whose time stamp is earlier, and after none.
pub proof fn lemma_freshly_mined_valid(
    b: BlockView,
    target: usize,
    txns: Seq<Transaction<Signed>>,
    previous_block_hash: Seq<u8>,
    previous: Option<BlockView>,
)
    requires
        freshly_mined(b, target, txns, previous_block_hash),
        previous matches Some(p) ==> p.block_hash == previous_block_hash && b.headers.time_stamp
            > p.headers.time_stamp,
    ensures
        mined(b.headers),
        block_hash_valid(b),
        payload_hash_valid(b),
        block_valid(b, previous),
{
}

/// Changing one byte of the stored block hash of a block that keeps the
/// rule of the block hash makes the block break that rule, and leaves its
/// verdict under each of the other three rules as it was.
pub proof fn lemma_block_hash_tamper(
    b: BlockView,
    previous: Option<BlockView>,
    index: int,
    byte: u8,
)
    requires
        block_hash_valid(b),
        0 <= index < b.block_hash.len(),
        byte != b.block_hash[index],
    ensures
        ({
            let forged = BlockView { block_hash: b.block_hash.update(index, byte), ..b };
            &&& !block_hash_valid(forged)
            &&& payload_hash_valid(forged) == payload_hash_valid(b)
            &&& previous_hash_valid(forged, previous) == previous_hash_valid(b, previous)
            &&& time_valid(forged, previous) == time_valid(b, previous)
        }),
{
    assert(b.block_hash.update(index, byte)[index] != b.block_hash[index]);
}

/// Changing one byte of the stored payload hash of a block that keeps the
/// rule of the payload hash makes the block break that rule, and leaves its
/// verdict under the rules of the link and of time as it was. The rule of
/// the block hash goes by the headers, which hold the payload hash.
pub proof fn lemma_payload_hash_tamper(
    b: BlockView,
    previous: Option<BlockView>,
    index: int,
    byte: u8,
)
    requires
        payload_hash_valid(b),
        0 <= index < b.headers.payload_hash.len(),
        byte != b.headers.payload_hash[index],
    ensures
        ({
            let forged = BlockView {
                headers: HeadersView {
                    payload_hash: b.headers.payload_hash.update(index, byte),
                    ..b.headers
                },
                ..b
            };
            &&& !payload_hash_valid(forged)
            &&& previous_hash_valid(forged, previous) == previous_hash_valid(b, previous)
            &&& time_valid(forged, previous) == time_valid(b, previous)
        }),
{
    assert(b.headers.payload_hash.update(index, byte)[index] != b.headers.payload_hash[index]);
}

/// With target zero the first candidate, nonce zero, is accepted.
pub proof fn lemma_zero_target_mines_at_once(h: HeadersView)
    requires
        h.target == 0,
    ensures
        mined(with_nonce(h, 0)),
        !no_nonce(h),
        first_nonce(h) ==> h.nonce == 0,
{
    assert(mined(with_nonce(h, 0)));
    if first_nonce(h) && h.nonce != 0 {
        assert(!mined(with_nonce(h, 0)));
    }
}

} // verus!
