//! Timelock extraction: decomposes a transaction's nLockTime, per-input
//! nSequence fields and script disassembly into the set of active timelock
//! predicates.

pub mod extractor;
pub mod types;
