//! The mempool: signed transactions that wait for a block.

use crate::util::clock::{unix_time, ClockError};
use crate::util::encoding::to_bytes;
use crate::util::hash::{self, hex_encoding, sha256};
use crate::util::transaction::{signed_encoding, Signed, Transaction};
use vstd::prelude::*;

verus! {

/// Why the mempool refused.
#[derive(Debug, Clone, PartialEq, Eq)]
pub enum MempoolError {
    /// No entry has the identifier that was looked for; the text names it.
    SearchErr(String),
    /// The transaction could not be taken in; the text says why.
    InsertErr(String),
}

/// How urgently an entry asks for a block.
#[derive(Debug, Clone, Copy, PartialEq, Eq)]
pub enum PoolPriority {
    Low,
    Normal,
    High,
}

/// A transaction in the mempool with what was derived from it on entry.
#[derive(Debug)]
pub struct PoolEntry {
    id: hash::Hash,
    time_stamp: i64,
    size: usize,
    fee: u64,
    value_ratio: u64,
    txn: Transaction<Signed>,
    prio: PoolPriority,
}

/// An entry as plain values.
pub struct EntryView {
    pub id: Seq<u8>,
    pub time_stamp: i64,
    pub size: usize,
    pub fee: u64,
    pub value_ratio: u64,
    pub txn: Transaction<Signed>,
    pub prio: PoolPriority,
}

impl View for PoolEntry {
    type V = EntryView;

    closed spec fn view(&self) -> EntryView {
        EntryView {
            id: self.id@,
            time_stamp: self.time_stamp,
            size: self.size,
            fee: self.fee,
            value_ratio: self.value_ratio,
            txn: self.txn,
            prio: self.prio,
        }
    }
}

/// The entry that `txn` gets when it enters at `time_stamp`: its identifier
/// is the hash of its canonical bytes, its size their number, its ratio
/// the size divided by the fee, rounded down, its priority normal.
pub open spec fn entry_for(txn: Transaction<Signed>, time_stamp: i64) -> EntryView {
    let size = signed_encoding(txn).len() as usize;
    EntryView {
        id: sha256(signed_encoding(txn)),
        time_stamp,
        size,
        fee: txn.context().fee,
        value_ratio: size as u64 / txn.context().fee,
        txn,
        prio: PoolPriority::Normal,
    }
}

/// The text of the error for a clock that cannot date a transaction.
pub open spec fn dating_message(clock: Seq<char>) -> Seq<char> {
    "fatal error occured while dating transaction: "@ + clock
}

/// The text of the error for a transaction whose fee is zero.
pub open spec fn zero_fee_message() -> Seq<char> {
    "fatal error occured while ranking transaction: fee is zero"@
}

/// The text of the error for an identifier that no entry has.
pub open spec fn not_found_message(id: Seq<u8>) -> Seq<char> {
    "unable to locate transaction with id: "@ + hex_encoding(id)
}

/// Whether some entry of `pool` has the identifier `id`.
pub open spec fn holds_id(pool: Seq<EntryView>, id: Seq<u8>) -> bool {
    exists|i: int| 0 <= i < pool.len() && (#[trigger] pool[i]).id == id
}

/// Whether the entry at `index` is the first of `pool` with the identifier
/// `id`.
pub open spec fn first_with_id(pool: Seq<EntryView>, id: Seq<u8>, index: int) -> bool {
    &&& 0 <= index < pool.len()
    &&& pool[index].id == id
    &&& forall|j: int| 0 <= j < index ==> (#[trigger] pool[j]).id != id
}

/// The ratio by which entries are ranked: `size` divided by `fee`, rounded
/// down. A fee of zero is refused.
pub fn value_ratio(size: usize, fee: u64) -> (ratio: Result<u64, MempoolError>)
    ensures
        ratio is Err <==> fee == 0,
        ratio matches Ok(r) ==> r == size as u64 / fee,
        ratio matches Err(error) ==> error matches MempoolError::InsertErr(text) && text@
            == zero_fee_message(),
{
    if fee == 0 {
        Err(
            MempoolError::InsertErr(
                String::from_str("fatal error occured while ranking transaction: fee is zero"),
            ),
        )
    } else {
        Ok(size as u64 / fee)
    }
}

impl MempoolError {
    /// The error for a clock that cannot date a transaction.
    pub fn from(value: ClockError) -> (error: MempoolError)
        ensures
            error matches MempoolError::InsertErr(text) && text@ == dating_message(value@),
    {
        let text = String::from_str("fatal error occured while dating transaction: ").concat(
            value.text().as_str(),
        );
        MempoolError::InsertErr(text)
    }

    /// The text of the error.
    pub fn message(&self) -> (text: &String)
        ensures
            text@ == match *self {
                MempoolError::SearchErr(t) => t@,
                MempoolError::InsertErr(t) => t@,
            },
    {
        match self {
            MempoolError::SearchErr(text) => text,
            MempoolError::InsertErr(text) => text,
        }
    }
}

impl PoolEntry {
    /// The identifier of the entry: the hash of the canonical bytes of its
    /// transaction.
    pub fn id(&self) -> (id: &hash::Hash)
        ensures
            id@ == self@.id,
    {
        &self.id
    }

    /// When the transaction entered, in seconds since the epoch.
    pub fn time_stamp(&self) -> (time_stamp: i64)
        ensures
            time_stamp == self@.time_stamp,
    {
        self.time_stamp
    }

    /// The number of canonical bytes of the transaction.
    pub fn size(&self) -> (size: usize)
        ensures
            size == self@.size,
    {
        self.size
    }

    /// The fee of the transaction.
    pub fn fee(&self) -> (fee: u64)
        ensures
            fee == self@.fee,
    {
        self.fee
    }

    /// Size divided by fee, rounded down: the smaller, the better.
    pub fn value_ratio(&self) -> (ratio: u64)
        ensures
            ratio == self@.value_ratio,
    {
        self.value_ratio
    }

    /// The transaction.
    pub fn txn(&self) -> (txn: &Transaction<Signed>)
        ensures
            *txn == self@.txn,
    {
        &self.txn
    }

    /// The priority of the entry.
    pub fn priority(&self) -> (prio: PoolPriority)
        ensures
            prio == self@.prio,
    {
        self.prio
    }
}

/// The transactions that wait for a block, in the order of their entry.
#[derive(Debug)]
pub struct Mempool {
    pool: Vec<PoolEntry>,
}

impl View for Mempool {
    type V = Seq<EntryView>;

    closed spec fn view(&self) -> Seq<EntryView> {
        self.pool@.map_values(|e: PoolEntry| e@)
    }
}

impl Mempool {
    /// An empty mempool.
    pub fn new() -> (mempool: Self)
        ensures
            mempool@ == Seq::<EntryView>::empty(),
    {
        let mempool = Self { pool: Vec::new() };
        proof {
            assert(mempool@ =~= Seq::<EntryView>::empty());
        }
        mempool
    }

    /// Takes `txn` in, dated by the system clock. A transaction whose fee
    /// is zero is refused, and so is any transaction while the clock stands
    /// before the epoch; the mempool is then left as it was.
    pub fn insert_transaction(&mut self, txn: Transaction<Signed>) -> (taken: Result<
        (),
        MempoolError,
    >)
        ensures
            txn.context().fee == 0 ==> taken is Err,
            taken is Ok ==> final(self)@ == old(self)@.push(
                entry_for(txn, final(self)@.last().time_stamp),
            ),
            taken matches Err(error) ==> {
                &&& final(self)@ == old(self)@
                &&& error matches MempoolError::InsertErr(text)
                &&& {
                    ||| txn.context().fee == 0 && text@ == zero_fee_message()
                    ||| exists|clock: Seq<char>| text@ == #[trigger] dating_message(clock)
                }
            },
    {
        match unix_time() {
            Ok(time_stamp) => self.insert_transaction_at(txn, time_stamp),
            Err(clock) => Err(MempoolError::from(clock)),
        }
    }

    /// Takes `txn` in, dated `time_stamp`. A transaction whose fee is zero
    /// is refused, and the mempool is then left as it was.
    pub fn insert_transaction_at(&mut self, txn: Transaction<Signed>, time_stamp: i64) -> (taken:
        Result<(), MempoolError>)
        ensures
            taken is Err <==> txn.context().fee == 0,
            taken is Ok ==> final(self)@ == old(self)@.push(entry_for(txn, time_stamp)),
            taken matches Err(error) ==> {
                &&& final(self)@ == old(self)@
                &&& error matches MempoolError::InsertErr(text)
                &&& text@ == zero_fee_message()
            },
    {
        let txn_bytes = to_bytes(&txn);
        let fee = txn.get_fee().get();
        let size = txn_bytes.len();
        match value_ratio(size, fee) {
            Ok(ratio) => {
                let entry = PoolEntry {
                    id: hash::Hash::raw(txn_bytes.as_slice()),
                    time_stamp,
                    size,
                    fee,
                    value_ratio: ratio,
                    txn,
                    prio: PoolPriority::Normal,
                };
                proof {
                    assert(entry@ == entry_for(txn, time_stamp));
                    assert(self.pool@.push(entry).map_values(|e: PoolEntry| e@) =~= self@.push(
                        entry@,
                    ));
                }
                self.pool.push(entry);
                Ok(())
            },
            Err(error) => Err(error),
        }
    }

    /// The first entry with the identifier `txn_id`.
    pub fn find_txn_by_id(&self, txn_id: hash::Hash) -> (found: Result<&PoolEntry, MempoolError>)
        ensures
            found is Ok <==> holds_id(self@, txn_id@),
            found matches Ok(entry) ==> exists|i: int|
                first_with_id(self@, txn_id@, i) && entry@ == #[trigger] self@[i],
            found matches Err(error) ==> error matches MempoolError::SearchErr(text) && text@
                == not_found_message(txn_id@),
    {
        let mut index: usize = 0;
        while index < self.pool.len()
            invariant
                index <= self.pool@.len(),
                self@.len() == self.pool@.len(),
                forall|j: int| 0 <= j < index ==> (#[trigger] self@[j]).id != txn_id@,
            decreases self.pool.len() - index,
        {
            if self.pool[index].id == txn_id {
                proof {
                    assert(first_with_id(self@, txn_id@, index as int));
                }
                return Ok(&self.pool[index]);
            }
            index = index + 1;
        }
        let text = String::from_str("unable to locate transaction with id: ").concat(
            txn_id.to_hex().as_str(),
        );
        Err(MempoolError::SearchErr(text))
    }

    /// The entries, in the order of their entry.
    pub fn entries(&self) -> (entries: &[PoolEntry])
        ensures
            entries@.map_values(|e: PoolEntry| e@) == self@,
    {
        self.pool.as_slice()
    }

    /// The number of entries.
    pub fn len(&self) -> (len: usize)
        ensures
            len == self@.len(),
    {
        self.pool.len()
    }
}

/// A transaction that has been taken in is found under the hash of its
/// canonical bytes.
pub proof fn lemma_inserted_is_held(pool: Seq<EntryView>, txn: Transaction<Signed>, time_stamp: i64)
    ensures
        holds_id(pool.push(entry_for(txn, time_stamp)), sha256(signed_encoding(txn))),
{
    let after = pool.push(entry_for(txn, time_stamp));
    assert(after[pool.len() as int].id == sha256(signed_encoding(txn)));
}

} // verus!
