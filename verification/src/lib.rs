//! Deterministic state-transition engine for a claim-a-cube game on a
//! shared ledger: participants permanently claim uniquely identified
//! resources ("cubes") by paying a fixed fee, while a designated authority
//! may adjust the fee and withdraw the collected funds.
//!
//! The transition logic itself is verified: `ops` holds the four operations
//! as functions from resolved records to new records, `ledger` supplies an
//! in-memory record store with the host's all-or-nothing commit discipline,
//! and `laws` states and proves the properties the engine is meant to keep.

pub mod state;
pub mod ops;
pub mod ledger;
pub mod laws;
