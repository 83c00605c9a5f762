//! Leaves of the ledger: the canonical byte encoding, hashing, keys,
//! the clock, the random source and the transaction type.

pub mod clock;
pub mod encoding;
pub mod hash;
pub mod keys;
pub mod random;
pub mod transaction;
