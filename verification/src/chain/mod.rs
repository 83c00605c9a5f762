//! The chain: blocks linked by hash, each mined against a target, the
//! first block at index zero and the tip last.

pub mod block;

use crate::chain::block::{
    block_failures, block_valid, failures_of, fresh_headers, freshly_mined, no_nonce,
    previous_hash_failure, previous_hash_valid, time_failure, time_valid, Block, BlockError,
    BlockView, ValidationError,
};
use crate::util::clock::unix_time;
use crate::util::encoding::MAX_SEQUENCE_LENGTH;
use crate::util::hash::zero_hash;
use crate::util::random::random_u64;
use crate::util::transaction::{Signed, Transaction, Transactions};
use vstd::prelude::*;

verus! {

/// The target that a chain is mined against unless another is asked for.
pub const DEFAULT_TARGET: usize = 2;

/// A chain of blocks. It always holds a first block.
#[derive(Debug)]
pub struct BlockChain {
    blocks: Vec<Block>,
    chain_id: u64,
}

impl View for BlockChain {
    type V = Seq<BlockView>;

    closed spec fn view(&self) -> Seq<BlockView> {
        self.blocks@.map_values(|b: Block| b@)
    }
}

/// The block before the block at `index`: none before the first.
pub open spec fn previous_in(chain: Seq<BlockView>, index: int) -> Option<BlockView> {
    if index == 0 {
        None
    } else {
        Some(chain[index - 1])
    }
}

/// Whether the block at `index` keeps all four rules.
pub open spec fn block_valid_at(chain: Seq<BlockView>, index: int) -> bool {
    block_valid(chain[index], previous_in(chain, index))
}

/// Whether every block of the chain keeps all four rules.
pub open spec fn chain_valid(chain: Seq<BlockView>) -> bool {
    forall|i: int| 0 <= i < chain.len() ==> block_valid_at(chain, i)
}

/// Whether `chain` is a chain of one block, freshly mined against `target`
/// with no transactions and nothing before it.
pub open spec fn is_genesis(chain: Seq<BlockView>, target: usize) -> bool {
    &&& chain.len() == 1
    &&& freshly_mined(chain[0], target, Seq::empty(), zero_hash())
}

/// Whether `after` is `before` with one more block at the tip, freshly
/// mined of `txns` against the target of the old tip and linked to it.
pub open spec fn extends(
    after: Seq<BlockView>,
    before: Seq<BlockView>,
    txns: Seq<Transaction<Signed>>,
) -> bool {
    &&& before.len() > 0
    &&& after.len() == before.len() + 1
    &&& after.drop_last() == before
    &&& freshly_mined(after.last(), before.last().headers.target, txns, before.last().block_hash)
}

impl BlockChain {
    #[verifier::type_invariant]
    spec fn has_genesis(self) -> bool {
        self.blocks@.len() > 0
    }

    /// The identifier that tells this chain from others.
    pub closed spec fn id(&self) -> u64 {
        self.chain_id
    }

    /// A chain of one freshly mined first block, against `DEFAULT_TARGET`,
    /// with a random identifier. It needs the clock and the random source,
    /// and fails when either does.
    pub fn new() -> (made: Result<Self, BlockError>)
        ensures
            match made {
                Ok(chain) => is_genesis(chain@, DEFAULT_TARGET) && chain_valid(chain@),
                Err(BlockError::NonceExhausted) => exists|time_stamp: i64|
                    no_nonce(
                        #[trigger] fresh_headers(
                            DEFAULT_TARGET,
                            Seq::empty(),
                            zero_hash(),
                            time_stamp,
                        ),
                    ),
                Err(BlockError::Clock(_)) => true,
                Err(BlockError::Random(_)) => true,
            },
    {
        Self::with_target(DEFAULT_TARGET)
    }

    /// A chain of one freshly mined first block, against `target`, with a
    /// random identifier. Later blocks are mined against the same target.
    /// It needs the clock and the random source, and fails when either
    /// does.
    pub fn with_target(target: usize) -> (made: Result<Self, BlockError>)
        ensures
            match made {
                Ok(chain) => is_genesis(chain@, target) && chain_valid(chain@),
                Err(BlockError::NonceExhausted) => exists|time_stamp: i64|
                    no_nonce(
                        #[trigger] fresh_headers(target, Seq::empty(), zero_hash(), time_stamp),
                    ),
                Err(BlockError::Clock(_)) => true,
                Err(BlockError::Random(_)) => true,
            },
            target == 0 ==> !(made matches Err(BlockError::NonceExhausted)),
    {
        match Block::new_genesis_block(target) {
            Ok(genesis) => match random_u64() {
                Ok(chain_id) => {
                    let mut blocks: Vec<Block> = Vec::new();
                    blocks.push(genesis);
                    let chain = BlockChain { blocks, chain_id };
                    proof {
                        lemma_genesis_valid(chain@, target);
                    }
                    Ok(chain)
                },
                Err(error) => Err(BlockError::Random(error)),
            },
            Err(error) => Err(error),
        }
    }

    /// The chain of the given blocks, first block first, whatever they
    /// hold; none when there is no block.
    pub fn from_blocks(blocks: Vec<Block>, chain_id: u64) -> (made: Option<Self>)
        ensures
            made is Some <==> blocks@.len() > 0,
            made matches Some(chain) ==> chain@ == blocks@.map_values(|b: Block| b@) && chain.id()
                == chain_id,
    {
        if blocks.len() == 0 {
            None
        } else {
            Some(BlockChain { blocks, chain_id })
        }
    }

    /// Gives the blocks back, first block first.
    pub fn into_blocks(self) -> (blocks: Vec<Block>)
        ensures
            blocks@.map_values(|b: Block| b@) == self@,
            blocks@.len() > 0,
    {
        proof {
            use_type_invariant(&self);
        }
        self.blocks
    }

    /// Mines a block of `txns` on the tip, stamped with the time of the
    /// system clock, and gives the chain back with that block as its tip.
    /// The new chain is valid when the old one was and the clock has moved
    /// on since the old tip was stamped. Where no block can be made, the
    /// chain comes back as it was, with the reason.
    pub fn add_block(self, txns: Transactions<Signed>) -> (made: Result<Self, (Self, BlockError)>)
        requires
            txns@.len() <= MAX_SEQUENCE_LENGTH,
        ensures
            match made {
                Ok(chain) => {
                    &&& extends(chain@, self@, txns@)
                    &&& chain.id() == self.id()
                    &&& chain_valid(self@) && chain@.last().headers.time_stamp
                        > self@.last().headers.time_stamp ==> chain_valid(chain@)
                },
                Err((chain, error)) => {
                    &&& chain@ == self@
                    &&& chain.id() == self.id()
                    &&& match error {
                        BlockError::NonceExhausted => exists|time_stamp: i64|
                            no_nonce(
                                #[trigger] fresh_headers(
                                    self@.last().headers.target,
                                    txns@,
                                    self@.last().block_hash,
                                    time_stamp,
                                ),
                            ),
                        BlockError::Clock(_) => true,
                        BlockError::Random(_) => false,
                    }
                },
            },
            self@.last().headers.target == 0 ==> !(made matches Err(
                (_, BlockError::NonceExhausted),
            )),
    {
        match unix_time() {
            Ok(time_stamp) => self.add_block_at(txns, time_stamp),
            Err(error) => Err((self, BlockError::Clock(error))),
        }
    }

    /// Mines a block of `txns` on the tip, stamped with `time_stamp`, and
    /// gives the chain back with that block as its tip. The new chain is
    /// valid when the old one was and `time_stamp` is later than the stamp
    /// of the old tip. Where no nonce meets the target, the chain comes
    /// back as it was, with the reason.
    pub fn add_block_at(self, txns: Transactions<Signed>, time_stamp: i64) -> (made: Result<
        Self,
        (Self, BlockError),
    >)
        requires
            txns@.len() <= MAX_SEQUENCE_LENGTH,
        ensures
            match made {
                Ok(chain) => {
                    &&& extends(chain@, self@, txns@)
                    &&& chain@.last().headers.time_stamp == time_stamp
                    &&& chain.id() == self.id()
                    &&& chain_valid(self@) && time_stamp > self@.last().headers.time_stamp
                        ==> chain_valid(chain@)
                },
                Err((chain, error)) => {
                    &&& chain@ == self@
                    &&& chain.id() == self.id()
                    &&& error == BlockError::NonceExhausted
                    &&& no_nonce(
                        fresh_headers(
                            self@.last().headers.target,
                            txns@,
                            self@.last().block_hash,
                            time_stamp,
                        ),
                    )
                },
            },
            self@.last().headers.target == 0 ==> made is Ok,
    {
        proof {
            use_type_invariant(&self);
        }
        let chain_id = self.chain_id;
        let mut blocks = self.blocks;
        let tip = &blocks[blocks.len() - 1];
        let target = tip.headers().target();
        let prev_block_hash = *tip.block_hash();
        match Block::new_at(target, txns, prev_block_hash, time_stamp) {
            Ok(block) => {
                blocks.push(block);
                let chain = BlockChain { blocks, chain_id };
                proof {
                    assert(chain@.drop_last() =~= self@);
                    if chain_valid(self@) && time_stamp > self@.last().headers.time_stamp {
                        lemma_extension_valid(chain@, self@, txns@);
                    }
                }
                Ok(chain)
            },
            Err(error) => Err((BlockChain { blocks, chain_id }, error)),
        }
    }

    /// Holds the block at `index` to the rule of the link.
    pub fn validate_previous_hash(&self, index: usize) -> (verdict: Result<(), ValidationError>)
        requires
            index < self@.len(),
        ensures
            verdict is Ok <==> previous_hash_valid(self@[index as int], previous_in(self@, index as int)),
            verdict matches Err(error) ==> error@ == previous_hash_failure(
                self@[index as int],
                self@[index - 1],
            ),
    {
        if index == 0 {
            self.blocks[index].validate_previous_hash(None)
        } else {
            self.blocks[index].validate_previous_hash(Some(&self.blocks[index - 1]))
        }
    }

    /// Holds the block at `index` to the rule of time.
    pub fn validate_time(&self, index: usize) -> (verdict: Result<(), ValidationError>)
        requires
            index < self@.len(),
        ensures
            verdict is Ok <==> time_valid(self@[index as int], previous_in(self@, index as int)),
            verdict matches Err(error) ==> error@ == time_failure(
                self@[index as int],
                self@[index - 1],
            ),
    {
        if index == 0 {
            self.blocks[index].validate_time(None)
        } else {
            self.blocks[index].validate_time(Some(&self.blocks[index - 1]))
        }
    }

    /// Holds the block at `index` to all four rules and reports every rule
    /// that it breaks.
    pub fn validate_block(&self, index: usize) -> (verdict: Result<(), Vec<ValidationError>>)
        requires
            index < self@.len(),
        ensures
            verdict is Ok <==> block_valid_at(self@, index as int),
            verdict matches Err(errors) ==> failures_of(errors@) == block_failures(
                self@[index as int],
                previous_in(self@, index as int),
            ),
    {
        if index == 0 {
            self.blocks[index].validate_block(None)
        } else {
            self.blocks[index].validate_block(Some(&self.blocks[index - 1]))
        }
    }

    /// Walks from the tip to the first block and holds each block to all
    /// four rules: true when every block keeps them.
    pub fn validate_chain(&self) -> (valid: bool)
        ensures
            valid == chain_valid(self@),
    {
        let mut index: usize = self.blocks.len();
        while index > 0
            invariant
                index <= self@.len(),
                self@.len() == self.blocks@.len(),
                forall|i: int| index <= i < self@.len() ==> block_valid_at(self@, i),
            decreases index,
        {
            index = index - 1;
            if self.validate_block(index).is_err() {
                return false;
            }
        }
        true
    }

    /// The blocks, first block first.
    pub fn get_blocks(&self) -> (blocks: &[Block])
        ensures
            blocks@.map_values(|b: Block| b@) == self@,
            blocks@.len() > 0,
    {
        proof {
            use_type_invariant(self);
        }
        self.blocks.as_slice()
    }

    /// The blocks from the tip back to the first block: every block once.
    pub fn iter(&self) -> (visited: Vec<&Block>)
        ensures
            visited@.len() == self@.len(),
            forall|i: int| 0 <= i < visited@.len() ==> visited@[i]@ == self@[self@.len() - 1 - i],
    {
        let mut visited: Vec<&Block> = Vec::new();
        let mut index: usize = self.blocks.len();
        while index > 0
            invariant
                index <= self.blocks@.len(),
                self@.len() == self.blocks@.len(),
                visited@.len() == self.blocks@.len() - index,
                forall|i: int|
                    0 <= i < visited@.len() ==> visited@[i]@ == self@[self@.len() - 1 - i],
            decreases index,
        {
            index = index - 1;
            visited.push(&self.blocks[index]);
        }
        visited
    }

    /// The number of blocks, the first block counted.
    pub fn len(&self) -> (len: usize)
        ensures
            len == self@.len(),
            len > 0,
    {
        proof {
            use_type_invariant(self);
        }
        self.blocks.len()
    }

    /// The most recent block.
    pub fn tip(&self) -> (tip: &Block)
        ensures
            tip@ == self@.last(),
    {
        proof {
            use_type_invariant(self);
        }
        &self.blocks[self.blocks.len() - 1]
    }

    /// The identifier that tells this chain from others.
    pub fn chain_id(&self) -> (chain_id: u64)
        ensures
            chain_id == self.id(),
    {
        self.chain_id
    }
}

/// A chain of one freshly mined block is valid.
pub proof fn lemma_genesis_valid(chain: Seq<BlockView>, target: usize)
    requires
        is_genesis(chain, target),
    ensures
        chain_valid(chain),
{
}

/// A valid chain stays valid when a block is mined on its tip with a later
/// time stamp.
pub proof fn lemma_extension_valid(
    after: Seq<BlockView>,
    before: Seq<BlockView>,
    txns: Seq<Transaction<Signed>>,
)
    requires
        chain_valid(before),
        extends(after, before, txns),
        after.last().headers.time_stamp > before.last().headers.time_stamp,
    ensures
        chain_valid(after),
{
    assert forall|i: int| 0 <= i < after.len() implies block_valid_at(after, i) by {
        if i < before.len() {
            assert(after[i] == after.drop_last()[i]);
            assert(block_valid_at(before, i));
            if i > 0 {
                assert(after[i - 1] == after.drop_last()[i - 1]);
            }
        } else {
            assert(after[i - 1] == after.drop_last()[i - 1]);
            assert(before.last() == before[i - 1]);
        }
    }
}

/// Whether the chain at `step + 1` of `history` is the chain at `step` with
/// one block mined on its tip, stamped later than that tip.
pub open spec fn added_later(history: Seq<Seq<BlockView>>, step: int) -> bool {
    &&& exists|txns: Seq<Transaction<Signed>>|
        #[trigger] extends(history[step + 1], history[step], txns)
    &&& history[step + 1].last().headers.time_stamp > history[step].last().headers.time_stamp
}

/// A chain that began with a freshly mined first block and grew block by
/// block, each stamped later than the tip it was mined on, is valid, and
/// holds one block more than were added.
pub proof fn lemma_grown_chain_valid(history: Seq<Seq<BlockView>>, target: usize)
    requires
        history.len() > 0,
        is_genesis(history[0], target),
        forall|step: int| 0 <= step < history.len() - 1 ==> #[trigger] added_later(history, step),
    ensures
        history.last().len() == history.len(),
        chain_valid(history.last()),
    decreases history.len(),
{
    if history.len() == 1 {
        lemma_genesis_valid(history[0], target);
    } else {
        let shorter = history.drop_last();
        assert forall|step: int| 0 <= step < shorter.len() - 1 implies #[trigger] added_later(
            shorter,
            step,
        ) by {
            assert(added_later(history, step));
        }
        lemma_grown_chain_valid(shorter, target);
        let last = history.len() - 2;
        assert(added_later(history, last));
        let txns = choose|txns: Seq<Transaction<Signed>>|
            #[trigger] extends(history[last + 1], history[last], txns);
        lemma_extension_valid(history[last + 1], history[last], txns);
    }
}

/// A block with the time stamp of the block before it breaks the rule of
/// time, and so the chain is not valid.
pub proof fn lemma_equal_time_stamps_fail(chain: Seq<BlockView>, index: int)
    requires
        0 < index < chain.len(),
        chain[index].headers.time_stamp == chain[index - 1].headers.time_stamp,
    ensures
        !time_valid(chain[index], previous_in(chain, index)),
        !block_valid_at(chain, index),
        !chain_valid(chain),
{
    if chain_valid(chain) {
        assert(block_valid_at(chain, index));
    }
}

/// The rules are local: putting another block in the place of the block at
/// `index` changes no verdict but that of the block itself and of the block
/// after it.
pub proof fn lemma_tamper_is_local(chain: Seq<BlockView>, index: int, forged: BlockView, other: int)
    requires
        0 <= index < chain.len(),
        0 <= other < chain.len(),
        other != index,
        other != index + 1,
    ensures
        block_valid_at(chain.update(index, forged), other) == block_valid_at(chain, other),
{
}

/// The block after a block whose stored hash was changed breaks the rule of
/// the link if it kept it before.
pub proof fn lemma_tamper_breaks_link(chain: Seq<BlockView>, index: int, forged: BlockView)
    requires
        0 <= index,
        index + 1 < chain.len(),
        previous_hash_valid(chain[index + 1], previous_in(chain, index + 1)),
        forged.block_hash != chain[index].block_hash,
    ensures
        !previous_hash_valid(
            chain.update(index, forged)[index + 1],
            previous_in(chain.update(index, forged), index + 1),
        ),
{
}

} // verus!
