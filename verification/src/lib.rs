//! Transactional core of a single-node ledger: canonical encoding and
//! hashing, the unsigned-to-signed transaction life cycle, proof-of-work
//! blocks, the chain that links them, a mempool and a wallet.

pub mod chain;
pub mod node;
pub mod util;
pub mod wallet;
