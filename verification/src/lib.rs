//! A minimal append-only ledger: transactions batched into blocks, blocks
//! proof-of-work mined, pluggable validation strategies gating acceptance,
//! a mempool buffering pending transactions, a hash-locked escrow, and an
//! append-only chain store with duplicate-hash rejection.

pub mod atomic_swap;
pub mod block;
pub mod chain;
pub mod consensus;
pub mod consensus_plugin;
pub mod crypto;
pub mod encoding;
pub mod external_adapter;
pub mod hashing;
pub mod mempool;
pub mod smart_contract;
pub mod transaction;
pub mod wallet;
