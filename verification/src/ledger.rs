//! What a contract asks of the ledger beyond reading and writing values.
use vstd::prelude::*;

verus! {

/// A request to extend the time to live of a persistent ledger entry: when
/// fewer than `threshold` ledgers remain before the entry expires, its time to
/// live becomes `extend_to` ledgers.
#[derive(Clone, Copy, Debug, PartialEq, Eq)]
pub struct TtlExtension<K> {
    pub key: K,
    pub threshold: u32,
    pub extend_to: u32,
}

} // verus!
