//! Storage of the protocol parameters contract.
pub mod errors;
pub mod laws;
pub mod storage;
pub mod types;
