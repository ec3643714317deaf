//! Lightning Network artifact classification: domain types and the
//! transaction classifier.

pub mod detector;
pub mod types;
