//! The vendor registry contract: an admin registers vendors and switches them
//! on and off.
pub mod access;
pub mod errors;
pub mod events;
pub mod laws;
pub mod storage;
pub mod types;

use vstd::prelude::*;

use crate::address::Address;
use crate::vendor_registry::access::{admin_check, require_admin};
use crate::vendor_registry::errors::Error;
use crate::vendor_registry::storage::{
    persistent_extension, stored_count, stored_schema_version, Env, EnvView, PersistentKey,
    CURRENT_SCHEMA_VERSION,
};
use crate::vendor_registry::types::{EventView, HostCall, VendorInfo, VendorInfoView};

pub use crate::vendor_registry::errors::Error as VendorRegistryError;

verus! {

/// The vendor registry contract.
pub struct VendorRegistryContract;

/// Whether a vendor name is acceptable: neither empty nor longer than 64 bytes.
pub open spec fn valid_name(name: Seq<u8>) -> bool {
    0 < name.len() <= 64
}

/// The state and result of `initialize(admin)` from state `pre`.
pub open spec fn initialize_outcome(pre: EnvView, admin: Address) -> (EnvView, Result<(), Error>) {
    if pre.admin is Some {
        (pre, Err(Error::AlreadyInitialized))
    } else {
        (EnvView { admin: Some(admin), ..pre }, Ok(()))
    }
}

/// What a newly registered vendor is stored with.
pub open spec fn new_vendor_info(pre: EnvView, name: Seq<u8>) -> VendorInfoView {
    VendorInfoView { name, registration_date: pre.timestamp, active: true, total_sales: 0 }
}

/// The state and result of `register_vendor(admin, vendor, name)` from `pre`.
/// When the count cannot grow, the vendor entry has been written already.
pub open spec fn register_outcome(pre: EnvView, admin: Address, vendor: Address, name: Seq<u8>) -> (
    EnvView,
    Result<(), Error>,
) {
    if admin_check(pre, admin) is Err {
        (pre, admin_check(pre, admin))
    } else if pre.vendors.contains_key(vendor) {
        (pre, Err(Error::VendorAlreadyRegistered))
    } else if !valid_name(name) {
        (pre, Err(Error::InvalidName))
    } else {
        let stored = EnvView {
            vendors: pre.vendors.insert(vendor, new_vendor_info(pre, name)),
            ttl_extensions: pre.ttl_extensions.push(
                persistent_extension(PersistentKey::Vendor(vendor)),
            ),
            ..pre
        };
        if stored_count(pre) == u64::MAX {
            (stored, Err(Error::Overflow))
        } else {
            (
                EnvView {
                    vendor_count: Some((stored_count(pre) + 1) as u64),
                    ttl_extensions: stored.ttl_extensions.push(
                        persistent_extension(PersistentKey::VendorCount),
                    ),
                    events: pre.events.push(EventView::VendorRegistered { vendor, name }),
                    ..stored
                },
                Ok(()),
            )
        }
    }
}

/// The state and result of setting the active status of `vendor` to `active`
/// on behalf of `admin`, from `pre`.
pub open spec fn status_outcome(pre: EnvView, admin: Address, vendor: Address, active: bool) -> (
    EnvView,
    Result<(), Error>,
) {
    if admin_check(pre, admin) is Err {
        (pre, admin_check(pre, admin))
    } else if !pre.vendors.contains_key(vendor) {
        (pre, Err(Error::VendorNotFound))
    } else {
        (
            EnvView {
                vendors: pre.vendors.insert(vendor, VendorInfoView { active, ..pre.vendors[vendor] }),
                ttl_extensions: pre.ttl_extensions.push(
                    persistent_extension(PersistentKey::Vendor(vendor)),
                ),
                events: pre.events.push(EventView::VendorStatus { vendor, active }),
                ..pre
            },
            Ok(()),
        )
    }
}

/// The state and result of `set_admin(new_admin)` from `pre`.
pub open spec fn set_admin_outcome(pre: EnvView, new_admin: Address) -> (EnvView, Result<(), Error>) {
    if pre.admin is None {
        (pre, Err(Error::NotInitialized))
    } else {
        (EnvView { admin: Some(new_admin), ..pre }, Ok(()))
    }
}

/// The state and result of `migrate()` from `pre`.
pub open spec fn migrate_outcome(pre: EnvView) -> (EnvView, Result<(), Error>) {
    if stored_schema_version(pre) >= CURRENT_SCHEMA_VERSION {
        (pre, Ok(()))
    } else {
        (
            EnvView {
                schema_version: Some(CURRENT_SCHEMA_VERSION),
                ttl_extensions: pre.ttl_extensions.push(
                    persistent_extension(PersistentKey::SchemaVersion),
                ),
                ..pre
            },
            Ok(()),
        )
    }
}

/// The state and result of `upgrade(new_wasm_hash)` from `pre`: with no admin
/// stored it is refused; otherwise the code replacement is requested and the
/// migration follows.
pub open spec fn upgrade_outcome(pre: EnvView, new_wasm_hash: [u8; 32]) -> (
    EnvView,
    Result<(), Error>,
) {
    if pre.admin is None {
        (pre, Err(Error::NotInitialized))
    } else {
        migrate_outcome(
            EnvView {
                host_calls: pre.host_calls.push(HostCall::UpdateCurrentContractWasm(new_wasm_hash)),
                ..pre
            },
        )
    }
}

/// The invocation carries the authorization of the stored admin, if any.
pub open spec fn admin_authorized(e: EnvView) -> bool {
    match e.admin {
        Some(a) => e.authorized.contains(a),
        None => true,
    }
}

impl VendorRegistryContract {
    /// Initializes the contract with an admin.
    pub fn initialize(env: &mut Env, admin: Address) -> (r: Result<(), Error>)
        ensures
            final(env)@ == initialize_outcome(old(env)@, admin).0,
            r == initialize_outcome(old(env)@, admin).1,
    {
        if storage::has_admin(env) {
            return Err(Error::AlreadyInitialized);
        }
        storage::set_admin(env, &admin);
        Ok(())
    }

    /// Registers a new vendor.
    pub fn register_vendor(env: &mut Env, admin: Address, vendor: Address, name: Vec<u8>) -> (r:
        Result<(), Error>)
        requires
            old(env)@.admin is Some ==> old(env)@.authorized.contains(admin),
        ensures
            final(env)@ == register_outcome(old(env)@, admin, vendor, name@).0,
            r == register_outcome(old(env)@, admin, vendor, name@).1,
    {
        if !storage::has_admin(env) {
            return Err(Error::NotInitialized);
        }
        match require_admin(env, &admin) {
            Ok(()) => {},
            Err(e) => {
                return Err(e);
            },
        }
        if storage::has_vendor(env, &vendor) {
            return Err(Error::VendorAlreadyRegistered);
        }
        if name.len() == 0 || name.len() > 64 {
            return Err(Error::InvalidName);
        }
        let stored_name = name.clone();
        proof {
            assert(stored_name@ =~= name@);
        }
        let info = VendorInfo {
            name: stored_name,
            registration_date: env.timestamp,
            active: true,
            total_sales: 0,
        };
        storage::set_vendor(env, &vendor, &info);
        match storage::increment_vendor_count(env) {
            Ok(()) => {},
            Err(e) => {
                return Err(e);
            },
        }
        events::publish_vendor_registered(env, vendor, name);
        Ok(())
    }

    /// Deactivates an existing vendor.
    pub fn deactivate_vendor(env: &mut Env, admin: Address, vendor: Address) -> (r: Result<(), Error>)
        requires
            old(env)@.admin is Some ==> old(env)@.authorized.contains(admin),
        ensures
            final(env)@ == status_outcome(old(env)@, admin, vendor, false).0,
            r == status_outcome(old(env)@, admin, vendor, false).1,
    {
        if !storage::has_admin(env) {
            return Err(Error::NotInitialized);
        }
        match require_admin(env, &admin) {
            Ok(()) => {},
            Err(e) => {
                return Err(e);
            },
        }
        let mut info = match storage::get_vendor(env, &vendor) {
            Ok(info) => info,
            Err(e) => {
                return Err(e);
            },
        };
        info.active = false;
        storage::set_vendor(env, &vendor, &info);
        events::publish_vendor_status(env, vendor, false);
        Ok(())
    }

    /// Activates an existing vendor.
    pub fn activate_vendor(env: &mut Env, admin: Address, vendor: Address) -> (r: Result<(), Error>)
        requires
            old(env)@.admin is Some ==> old(env)@.authorized.contains(admin),
        ensures
            final(env)@ == status_outcome(old(env)@, admin, vendor, true).0,
            r == status_outcome(old(env)@, admin, vendor, true).1,
    {
        if !storage::has_admin(env) {
            return Err(Error::NotInitialized);
        }
        match require_admin(env, &admin) {
            Ok(()) => {},
            Err(e) => {
                return Err(e);
            },
        }
        let mut info = match storage::get_vendor(env, &vendor) {
            Ok(info) => info,
            Err(e) => {
                return Err(e);
            },
        };
        info.active = true;
        storage::set_vendor(env, &vendor, &info);
        events::publish_vendor_status(env, vendor, true);
        Ok(())
    }

    /// Sets a vendor's active status (admin only): `true` activates it,
    /// `false` deactivates it.
    pub fn set_vendor_status(env: &mut Env, admin: Address, vendor: Address, active: bool) -> (r:
        Result<(), Error>)
        requires
            old(env)@.admin is Some ==> old(env)@.authorized.contains(admin),
        ensures
            final(env)@ == status_outcome(old(env)@, admin, vendor, active).0,
            r == status_outcome(old(env)@, admin, vendor, active).1,
    {
        if !storage::has_admin(env) {
            return Err(Error::NotInitialized);
        }
        match require_admin(env, &admin) {
            Ok(()) => {},
            Err(e) => {
                return Err(e);
            },
        }
        let mut info = match storage::get_vendor(env, &vendor) {
            Ok(info) => info,
            Err(e) => {
                return Err(e);
            },
        };
        info.active = active;
        storage::set_vendor(env, &vendor, &info);
        events::publish_vendor_status(env, vendor, active);
        Ok(())
    }

    /// Whether `vendor` is registered and active.
    pub fn is_active(env: &Env, vendor: Address) -> (r: bool)
        ensures
            r == (env@.vendors.contains_key(vendor) && env@.vendors[vendor].active),
    {
        match storage::get_vendor(env, &vendor) {
            Ok(info) => info.active,
            Err(_) => false,
        }
    }

    /// What is stored about `vendor`.
    pub fn get_vendor_info(env: &Env, vendor: Address) -> (r: Result<VendorInfo, Error>)
        ensures
            env@.admin is None ==> r == Err::<VendorInfo, Error>(Error::NotInitialized),
            env@.admin is Some ==> match r {
                Ok(info) => env@.vendors.contains_key(vendor) && info@ == env@.vendors[vendor],
                Err(e) => !env@.vendors.contains_key(vendor) && e == Error::VendorNotFound,
            },
    {
        if !storage::has_admin(env) {
            return Err(Error::NotInitialized);
        }
        storage::get_vendor(env, &vendor)
    }

    /// The number of vendors registered.
    pub fn get_vendor_count(env: &Env) -> (r: Result<u64, Error>)
        ensures
            r == (if env@.admin is None {
                Err(Error::NotInitialized)
            } else {
                Ok(stored_count(env@))
            }),
    {
        if !storage::has_admin(env) {
            return Err(Error::NotInitialized);
        }
        storage::get_vendor_count(env)
    }

    /// Sets the admin address; the invocation must carry the authorization of
    /// the current admin.
    pub fn set_admin(env: &mut Env, new_admin: Address) -> (r: Result<(), Error>)
        requires
            admin_authorized(old(env)@),
        ensures
            final(env)@ == set_admin_outcome(old(env)@, new_admin).0,
            r == set_admin_outcome(old(env)@, new_admin).1,
    {
        let old_admin = match storage::get_admin(env) {
            Ok(a) => a,
            Err(e) => {
                return Err(e);
            },
        };
        match require_admin(env, &old_admin) {
            Ok(()) => {},
            Err(e) => {
                return Err(e);
            },
        }
        storage::set_admin(env, &new_admin);
        Ok(())
    }

    /// Brings storage up to the current schema version; calling it again
    /// changes nothing.
    pub fn migrate(env: &mut Env) -> (r: Result<(), Error>)
        ensures
            final(env)@ == migrate_outcome(old(env)@).0,
            r == migrate_outcome(old(env)@).1,
    {
        let stored = storage::get_schema_version(env);
        let current = CURRENT_SCHEMA_VERSION;
        if stored >= current {
            return Ok(());
        }
        storage::set_schema_version(env, current);
        Ok(())
    }

    /// Replaces the contract code (admin only), then migrates storage: the
    /// code replacement is handed to the host as a request in `host_calls`,
    /// and the migration is run on the spot, so that storage is brought up to
    /// the current schema version in the same invocation.
    pub fn upgrade(env: &mut Env, new_wasm_hash: [u8; 32]) -> (r: Result<(), Error>)
        requires
            admin_authorized(old(env)@),
        ensures
            final(env)@ == upgrade_outcome(old(env)@, new_wasm_hash).0,
            r == upgrade_outcome(old(env)@, new_wasm_hash).1,
    {
        let admin = match storage::get_admin(env) {
            Ok(a) => a,
            Err(e) => {
                return Err(e);
            },
        };
        match require_admin(env, &admin) {
            Ok(()) => {},
            Err(e) => {
                return Err(e);
            },
        }
        env.host_calls.push(HostCall::UpdateCurrentContractWasm(new_wasm_hash));
        Self::migrate(env)
    }
}

} // verus!
