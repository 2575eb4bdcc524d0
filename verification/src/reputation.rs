//! Storage of the reputation contract.
pub mod errors;
pub mod laws;
pub mod storage;
