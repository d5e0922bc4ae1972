//! An owner-gated key-value ledger.
//!
//! A single administrative identity records and accumulates unsigned
//! balances keyed by a (holder, category) pair.  The store keeps one
//! configuration record naming the current owner and a sparse balance
//! table; absent keys read as zero and are never materialized.

pub mod contract;
pub mod error;
pub mod msg;
pub mod state;
