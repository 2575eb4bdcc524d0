//! The ledger storage of the vendor registry contract.
//!
//! Instance storage holds the admin, the reentrancy lock and the contract
//! version; persistent storage holds one entry per vendor, the vendor count
//! and the schema version. Every write of a vendor or of the count asks the
//! host to extend the life of the entry written.
use vstd::prelude::*;

use crate::address::Address;
use crate::address_map::AddressMap;
use crate::ledger::TtlExtension;
use crate::vendor_registry::errors::Error;
use crate::vendor_registry::types::{Event, EventView, HostCall, VendorInfo, VendorInfoView};

verus! {

/// When fewer ledgers than this remain, a persistent entry that is written is
/// given a longer life.
pub const PERSISTENT_TTL_THRESHOLD: u32 = 1_036_800;

/// The time to live, in ledgers, that a written persistent entry is given.
pub const PERSISTENT_TTL_EXTEND_TO: u32 = 2_073_600;

/// The schema version that this code writes; `migrate` brings older storage
/// up to it.
pub const CURRENT_SCHEMA_VERSION: u32 = 1;

/// The persistent entries of this contract.
#[derive(Clone, Copy, Debug, PartialEq, Eq)]
pub enum PersistentKey {
    /// The entry of one vendor.
    Vendor(Address),
    /// The number of vendors registered.
    VendorCount,
    /// The schema version, stored under `SCH_VER`.
    SchemaVersion,
}

/// The part of the host environment that this contract reads and writes.
pub struct Env {
    /// Timestamp of the current ledger.
    pub timestamp: u64,
    /// Addresses whose authorization this invocation carries. The library
    /// takes this list as given: whoever builds the environment fills it, and
    /// must put an address in only after the host has checked that address's
    /// authorization (the host aborts the invocation otherwise). Nothing in
    /// the library ties the list to the host's check.
    pub authorized: Vec<Address>,
    pub admin: Option<Address>,
    pub locked: Option<bool>,
    pub version: Option<u32>,
    pub vendors: AddressMap<VendorInfo>,
    pub vendor_count: Option<u64>,
    pub schema_version: Option<u32>,
    /// Time-to-live extensions asked for, in order.
    pub ttl_extensions: Vec<TtlExtension<PersistentKey>>,
    /// Events published, in order.
    pub events: Vec<Event>,
    /// Calls the host is asked to make, in order.
    pub host_calls: Vec<HostCall>,
}

/// The value of an [`Env`].
pub struct EnvView {
    pub timestamp: u64,
    pub authorized: Seq<Address>,
    pub admin: Option<Address>,
    pub locked: Option<bool>,
    pub version: Option<u32>,
    pub vendors: Map<Address, VendorInfoView>,
    pub vendor_count: Option<u64>,
    pub schema_version: Option<u32>,
    pub ttl_extensions: Seq<TtlExtension<PersistentKey>>,
    pub events: Seq<EventView>,
    pub host_calls: Seq<HostCall>,
}

impl View for Env {
    type V = EnvView;

    open spec fn view(&self) -> EnvView {
        EnvView {
            timestamp: self.timestamp,
            authorized: self.authorized@,
            admin: self.admin,
            locked: self.locked,
            version: self.version,
            vendors: self.vendors@,
            vendor_count: self.vendor_count,
            schema_version: self.schema_version,
            ttl_extensions: self.ttl_extensions@,
            events: self.events@.map_values(|e: Event| e@),
            host_calls: self.host_calls@,
        }
    }
}

impl Env {
    /// An environment at ledger time `timestamp`, carrying the authorization
    /// of the addresses in `authorized`, in which nothing has been stored.
    pub fn new(timestamp: u64, authorized: Vec<Address>) -> (env: Env)
        ensures
            env@ == (EnvView {
                timestamp,
                authorized: authorized@,
                admin: None,
                locked: None,
                version: None,
                vendors: Map::empty(),
                vendor_count: None,
                schema_version: None,
                ttl_extensions: Seq::empty(),
                events: Seq::empty(),
                host_calls: Seq::empty(),
            }),
    {
        let env = Env {
            timestamp,
            authorized,
            admin: None,
            locked: None,
            version: None,
            vendors: AddressMap::new(),
            vendor_count: None,
            schema_version: None,
            ttl_extensions: Vec::new(),
            events: Vec::new(),
            host_calls: Vec::new(),
        };
        assert(env@.events =~= Seq::<EventView>::empty());
        env
    }
}

/// The extension that every write of a persistent entry asks for.
pub open spec fn persistent_extension(key: PersistentKey) -> TtlExtension<PersistentKey> {
    TtlExtension { key, threshold: PERSISTENT_TTL_THRESHOLD, extend_to: PERSISTENT_TTL_EXTEND_TO }
}

/// The vendor count: 0 when it was never written.
pub open spec fn stored_count(e: EnvView) -> u64 {
    match e.vendor_count {
        Some(c) => c,
        None => 0,
    }
}

/// The schema version: 0 when it was never written.
pub open spec fn stored_schema_version(e: EnvView) -> u32 {
    match e.schema_version {
        Some(v) => v,
        None => 0,
    }
}

/// Whether an admin has been stored.
pub fn has_admin(env: &Env) -> (r: bool)
    ensures
        r == env@.admin is Some,
{
    env.admin.is_some()
}

/// The stored admin.
pub fn get_admin(env: &Env) -> (r: Result<Address, Error>)
    ensures
        r == (match env@.admin {
            Some(a) => Ok(a),
            None => Err(Error::NotInitialized),
        }),
{
    match env.admin {
        Some(a) => Ok(a),
        None => Err(Error::NotInitialized),
    }
}

/// Stores `admin` as the admin.
pub fn set_admin(env: &mut Env, admin: &Address)
    ensures
        final(env)@ == (EnvView { admin: Some(*admin), ..old(env)@ }),
{
    env.admin = Some(*admin);
}

/// Whether a vendor is registered under `vendor`.
pub fn has_vendor(env: &Env, vendor: &Address) -> (r: bool)
    ensures
        r == env@.vendors.contains_key(*vendor),
{
    env.vendors.contains_key(vendor)
}

/// What is stored about `vendor`.
pub fn get_vendor(env: &Env, vendor: &Address) -> (r: Result<VendorInfo, Error>)
    ensures
        match r {
            Ok(info) => env@.vendors.contains_key(*vendor) && info@ == env@.vendors[*vendor],
            Err(e) => !env@.vendors.contains_key(*vendor) && e == Error::VendorNotFound,
        },
{
    match env.vendors.get(vendor) {
        Some(info) => Ok(info.clone()),
        None => Err(Error::VendorNotFound),
    }
}

/// Stores `info` for `vendor` and extends the life of its entry.
pub fn set_vendor(env: &mut Env, vendor: &Address, info: &VendorInfo)
    ensures
        final(env)@ == (EnvView {
            vendors: old(env)@.vendors.insert(*vendor, info@),
            ttl_extensions: old(env)@.ttl_extensions.push(
                persistent_extension(PersistentKey::Vendor(*vendor)),
            ),
            ..old(env)@
        }),
{
    env.vendors.insert(*vendor, info.clone());
    extend_persistent_ttl(env, &PersistentKey::Vendor(*vendor));
}

/// The number of vendors registered; 0 when it was never written.
pub fn get_vendor_count(env: &Env) -> (r: Result<u64, Error>)
    ensures
        r == Ok::<u64, Error>(stored_count(env@)),
{
    match env.vendor_count {
        Some(c) => Ok(c),
        None => Ok(0),
    }
}

/// Adds one to the vendor count and extends the life of its entry; fails,
/// writing nothing, when the count is at its largest value.
pub fn increment_vendor_count(env: &mut Env) -> (r: Result<(), Error>)
    ensures
        stored_count(old(env)@) == u64::MAX ==> r == Err::<(), Error>(Error::Overflow)
            && final(env)@ == old(env)@,
        stored_count(old(env)@) < u64::MAX ==> r == Ok::<(), Error>(()) && final(env)@ == (
        EnvView {
            vendor_count: Some((stored_count(old(env)@) + 1) as u64),
            ttl_extensions: old(env)@.ttl_extensions.push(
                persistent_extension(PersistentKey::VendorCount),
            ),
            ..old(env)@
        }),
{
    let count = get_vendor_count(env)?;
    let next = match count.checked_add(1) {
        Some(n) => n,
        None => {
            return Err(Error::Overflow);
        },
    };
    env.vendor_count = Some(next);
    extend_persistent_ttl(env, &PersistentKey::VendorCount);
    Ok(())
}

/// Whether the reentrancy lock is held; it is not when it was never set.
pub fn is_reentrancy_locked(env: &Env) -> (r: Result<bool, Error>)
    ensures
        r == Ok::<bool, Error>(
            match env@.locked {
                Some(b) => b,
                None => false,
            },
        ),
{
    match env.locked {
        Some(b) => Ok(b),
        None => Ok(false),
    }
}

/// Stores the reentrancy lock.
pub fn set_reentrancy_locked(env: &mut Env, locked: bool)
    ensures
        final(env)@ == (EnvView { locked: Some(locked), ..old(env)@ }),
{
    env.locked = Some(locked);
}

/// Asks the host to extend the life of the persistent entry `key`.
fn extend_persistent_ttl(env: &mut Env, key: &PersistentKey)
    ensures
        final(env)@ == (EnvView {
            ttl_extensions: old(env)@.ttl_extensions.push(persistent_extension(*key)),
            ..old(env)@
        }),
{
    env.ttl_extensions.push(
        TtlExtension {
            key: *key,
            threshold: PERSISTENT_TTL_THRESHOLD,
            extend_to: PERSISTENT_TTL_EXTEND_TO,
        },
    );
}

/// The contract version; 1 when it was never set.
pub fn get_version(env: &Env) -> (r: Result<u32, Error>)
    ensures
        r == Ok::<u32, Error>(
            match env@.version {
                Some(v) => v,
                None => 1,
            },
        ),
{
    match env.version {
        Some(v) => Ok(v),
        None => Ok(1),
    }
}

/// Stores the contract version.
pub fn set_version(env: &mut Env, v: u32)
    ensures
        final(env)@ == (EnvView { version: Some(v), ..old(env)@ }),
{
    env.version = Some(v);
}

/// The schema version; 0 when it was never set.
pub fn get_schema_version(env: &Env) -> (r: u32)
    ensures
        r == stored_schema_version(env@),
{
    match env.schema_version {
        Some(v) => v,
        None => 0,
    }
}

/// Stores the schema version and extends the life of its entry.
pub fn set_schema_version(env: &mut Env, version: u32)
    ensures
        final(env)@ == (EnvView {
            schema_version: Some(version),
            ttl_extensions: old(env)@.ttl_extensions.push(
                persistent_extension(PersistentKey::SchemaVersion),
            ),
            ..old(env)@
        }),
{
    env.schema_version = Some(version);
    extend_persistent_ttl(env, &PersistentKey::SchemaVersion);
}

} // verus!
