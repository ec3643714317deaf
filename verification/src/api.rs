//! The transaction record consumed by the analyzers, as delivered by a
//! blockchain data source.

pub mod types;
