use vstd::prelude::*;

verus! {

/// The protocol-wide settings kept by the parameters contract.
#[derive(Clone, Copy, Debug, PartialEq, Eq)]
pub struct ProtocolParameters {
    /// Fee charged on each sale, in basis points.
    pub fee_bps: u32,
    /// Largest number of items a single listing may hold.
    pub max_items_per_listing: u32,
    /// Seconds during which a buyer may open a dispute after a sale.
    pub dispute_window_secs: u64,
}

} // verus!
