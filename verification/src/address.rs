//! Addresses as plain values: the kind of the address and its 32-byte payload
//! (an Ed25519 public key for an account, a contract hash for a contract).
use vstd::prelude::*;

verus! {

/// Whether an address names an account or a contract.
#[derive(Clone, Copy, Debug, PartialEq, Eq)]
pub enum AddressKind {
    Account,
    Contract,
}

/// An account or contract address.
#[derive(Clone, Copy, Debug, PartialEq, Eq)]
pub struct Address {
    pub kind: AddressKind,
    pub id: [u8; 32],
}

impl Address {
    /// Whether the two addresses name the same account or contract.
    pub fn same_as(&self, other: &Address) -> (r: bool)
        ensures
            r == (*self == *other),
    {
        let same_kind = match (self.kind, other.kind) {
            (AddressKind::Account, AddressKind::Account) => true,
            (AddressKind::Contract, AddressKind::Contract) => true,
            _ => false,
        };
        if !same_kind {
            return false;
        }
        let mut i: usize = 0;
        while i < 32
            invariant
                i <= 32,
                forall|j: int| 0 <= j < i ==> self.id[j] == other.id[j],
            decreases 32 - i,
        {
            if self.id[i] != other.id[i] {
                return false;
            }
            i = i + 1;
        }
        proof {
            broadcast use vstd::array::group_array_axioms;
            assert(self.id =~= other.id);
        }
        true
    }
}

} // verus!
