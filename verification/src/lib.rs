//! Transactional core of an NFT launchpad.
//!
//! A `Launchpad` owns a registry of `Launch` records (one per collection),
//! per-address purchase counters, and an explicit whitelist ledger. For each
//! incoming mint request it decides admissibility (timing, payment, whitelist
//! membership, per-address quota, total-supply cap) and, on success, computes
//! the new token identifier, the metadata URI, and the split of the paid funds
//! between the platform fee recipient and the collection owner.
//!
//! Every operation is a pure transition on the in-memory state: callers load
//! the state, invoke one operation, and persist the result. Failed operations
//! leave the state unchanged.

pub mod assoc;
pub mod contract;
pub mod error;
pub mod fees;
pub mod laws;
pub mod merkle;
pub mod mint;
pub mod msg;
pub mod phase;
pub mod quota;
pub mod registry;
pub mod state;
pub mod text;
