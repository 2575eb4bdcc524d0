pub mod address;
pub mod address_map;
pub mod ledger;
pub mod parameters;
pub mod reputation;
pub mod vendor_registry;
