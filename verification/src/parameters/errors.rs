use vstd::prelude::*;

verus! {

/// Errors of the protocol parameters contract.
#[derive(Clone, Copy, Debug, PartialEq, Eq)]
pub enum ParametersError {
    /// No admin or no parameters have been stored yet.
    NotInitialized,
}

} // verus!
