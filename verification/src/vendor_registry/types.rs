use vstd::prelude::*;

use crate::address::Address;

verus! {

/// What the registry keeps about a vendor.
#[derive(Debug, PartialEq, Eq)]
pub struct VendorInfo {
    /// The vendor's name, as bytes.
    pub name: Vec<u8>,
    /// Ledger timestamp at which the vendor was registered.
    pub registration_date: u64,
    /// Whether the vendor is active.
    pub active: bool,
    /// Sales recorded for the vendor.
    pub total_sales: u64,
}

/// The value of a [`VendorInfo`].
pub struct VendorInfoView {
    pub name: Seq<u8>,
    pub registration_date: u64,
    pub active: bool,
    pub total_sales: u64,
}

impl View for VendorInfo {
    type V = VendorInfoView;

    open spec fn view(&self) -> VendorInfoView {
        VendorInfoView {
            name: self.name@,
            registration_date: self.registration_date,
            active: self.active,
            total_sales: self.total_sales,
        }
    }
}

impl Clone for VendorInfo {
    fn clone(&self) -> (r: Self)
        ensures
            r@ == self@,
    {
        let name = self.name.clone();
        proof {
            assert(name@ =~= self.name@);
        }
        VendorInfo {
            name,
            registration_date: self.registration_date,
            active: self.active,
            total_sales: self.total_sales,
        }
    }
}

/// An event that the registry publishes.
#[derive(Clone, Debug, PartialEq, Eq)]
pub enum Event {
    /// A vendor was registered under `name`.
    VendorRegistered { vendor: Address, name: Vec<u8> },
    /// A vendor's active status was set to `active`.
    VendorStatus { vendor: Address, active: bool },
}

/// The value of an [`Event`].
pub enum EventView {
    VendorRegistered { vendor: Address, name: Seq<u8> },
    VendorStatus { vendor: Address, active: bool },
}

impl View for Event {
    type V = EventView;

    open spec fn view(&self) -> EventView {
        match self {
            Event::VendorRegistered { vendor, name } => EventView::VendorRegistered {
                vendor: *vendor,
                name: name@,
            },
            Event::VendorStatus { vendor, active } => EventView::VendorStatus {
                vendor: *vendor,
                active: *active,
            },
        }
    }
}

/// A call that the contract asks the host to make on its behalf.
#[derive(Clone, Copy, Debug, PartialEq, Eq)]
pub enum HostCall {
    /// Replace the code of this contract by the code with this hash.
    UpdateCurrentContractWasm([u8; 32]),
}

} // verus!
