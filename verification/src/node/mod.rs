//! What one node holds: its chain and its mempool.

pub mod mempool;

use crate::chain::block::BlockView;
use crate::chain::BlockChain;
use crate::node::mempool::{EntryView, Mempool};
use vstd::prelude::*;

verus! {

/// A node: a chain, and the transactions that wait for a block of it.
pub struct Node {
    chain: BlockChain,
    mempool: Mempool,
}

impl Node {
    /// The blocks of the node's chain.
    pub closed spec fn chain_view(&self) -> Seq<BlockView> {
        self.chain@
    }

    /// The entries of the node's mempool.
    pub closed spec fn mempool_view(&self) -> Seq<EntryView> {
        self.mempool@
    }

    /// The node that holds `chain` and `mempool`.
    pub fn new(chain: BlockChain, mempool: Mempool) -> (node: Self)
        ensures
            node.chain_view() == chain@,
            node.mempool_view() == mempool@,
    {
        Self { chain, mempool }
    }

    /// The chain of the node.
    pub fn chain(&self) -> (chain: &BlockChain)
        ensures
            chain@ == self.chain_view(),
    {
        &self.chain
    }

    /// The mempool of the node.
    pub fn mempool(&self) -> (mempool: &Mempool)
        ensures
            mempool@ == self.mempool_view(),
    {
        &self.mempool
    }

    /// Gives the chain and the mempool back.
    pub fn into_parts(self) -> (parts: (BlockChain, Mempool))
        ensures
            parts.0@ == self.chain_view(),
            parts.1@ == self.mempool_view(),
    {
        (self.chain, self.mempool)
    }
}

} // verus!
