//! Atomic multi-hop arbitrage routing: payload decoding, account partitioning,
//! per-protocol swap instruction layouts, hop sequencing and the profit guard.
//!
//! Every decision is made here, over plain values; the ledger-facing work
//! (cross-program calls, balance reads, return data) is left to the caller,
//! which performs the actions this library hands out.

pub mod error;
pub mod registry;
pub mod params;
pub mod plan;
pub mod cpi;
pub mod routes;
pub mod dispatch;
pub mod guard;
pub mod partition;
pub mod binding;
pub mod session;
