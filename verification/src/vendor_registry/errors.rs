use vstd::prelude::*;

verus! {

/// Errors of the vendor registry contract.
#[derive(Clone, Copy, Debug, PartialEq, Eq)]
pub enum Error {
    /// `initialize` was called on a contract that already has an admin.
    AlreadyInitialized,
    /// The contract has no admin yet.
    NotInitialized,
    /// The caller is not the admin.
    Unauthorized,
    /// The vendor is registered already.
    VendorAlreadyRegistered,
    /// No vendor is registered under the address.
    VendorNotFound,
    /// A vendor name is empty or longer than 64 bytes.
    InvalidName,
    /// The vendor count cannot grow any further.
    Overflow,
}

} // verus!
