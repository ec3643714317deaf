//! Forensic analysis of Bitcoin transactions: timelock extraction and
//! Lightning Network artifact classification.
//!
//! The crate decomposes a confirmed transaction's `nLockTime`, per-input
//! `nSequence` fields and script disassembly into the set of active timelock
//! predicates, and applies a layered signal model to recognize Lightning
//! commitment transactions and HTLC second-stage claims or refunds.

pub mod api;
pub mod lightning;
pub mod render;
pub mod script;
pub mod timelock;
