use vstd::prelude::*;

verus! {

/// Errors of the reputation contract.
#[derive(Clone, Copy, Debug, PartialEq, Eq)]
pub enum ReputationError {
    /// No admin has been stored yet.
    NotInitialized,
}

} // verus!
