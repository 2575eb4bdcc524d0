//! Properties of the registry that span calls.
use vstd::prelude::*;

use crate::address::Address;
use crate::vendor_registry::access::admin_check;
use crate::vendor_registry::errors::Error;
use crate::ledger::TtlExtension;
use crate::vendor_registry::storage::{
    persistent_extension, stored_count, stored_schema_version, EnvView, PersistentKey,
    CURRENT_SCHEMA_VERSION,
};
use crate::vendor_registry::types::{EventView, HostCall, VendorInfoView};
use crate::vendor_registry::{
    initialize_outcome, migrate_outcome, new_vendor_info, register_outcome, set_admin_outcome,
    status_outcome, upgrade_outcome,
};

verus! {

/// A call of one of the registry's state-changing entry points.
pub enum Invocation {
    Initialize { admin: Address },
    RegisterVendor { admin: Address, vendor: Address, name: Seq<u8> },
    DeactivateVendor { admin: Address, vendor: Address },
    ActivateVendor { admin: Address, vendor: Address },
    SetVendorStatus { admin: Address, vendor: Address, active: bool },
    SetAdmin { new_admin: Address },
    Migrate,
    Upgrade { new_wasm_hash: [u8; 32] },
}

/// The state and result of `call` from `pre`, as the entry point's contract
/// states them.
pub open spec fn outcome(pre: EnvView, call: Invocation) -> (EnvView, Result<(), Error>) {
    match call {
        Invocation::Initialize { admin } => initialize_outcome(pre, admin),
        Invocation::RegisterVendor { admin, vendor, name } => register_outcome(pre, admin, vendor, name),
        Invocation::DeactivateVendor { admin, vendor } => status_outcome(pre, admin, vendor, false),
        Invocation::ActivateVendor { admin, vendor } => status_outcome(pre, admin, vendor, true),
        Invocation::SetVendorStatus { admin, vendor, active } => status_outcome(
            pre,
            admin,
            vendor,
            active,
        ),
        Invocation::SetAdmin { new_admin } => set_admin_outcome(pre, new_admin),
        Invocation::Migrate => migrate_outcome(pre),
        Invocation::Upgrade { new_wasm_hash } => upgrade_outcome(pre, new_wasm_hash),
    }
}

/// The stored vendor count is the number of vendors stored.
pub open spec fn count_matches(e: EnvView) -> bool {
    &&& e.vendors.dom().finite()
    &&& stored_count(e) as int == e.vendors.dom().len()
}

/// A contract can be initialized once: the first call stores the admin, every
/// later one is refused with `AlreadyInitialized` and changes nothing.
pub proof fn initialize_once(pre: EnvView, first: Address, second: Address)
    requires
        pre.admin is None,
    ensures
        initialize_outcome(pre, first).1 == Ok::<(), Error>(()),
        initialize_outcome(pre, first).0 == (EnvView { admin: Some(first), ..pre }),
        initialize_outcome(initialize_outcome(pre, first).0, second) == (
            initialize_outcome(pre, first).0,
            Err::<(), Error>(Error::AlreadyInitialized),
        ),
{
}

/// After a successful registration the vendor reads back as registered now,
/// under the given name, active and with no sales; the count has grown by
/// one, and no other vendor has changed.
pub proof fn registration_reads_back(pre: EnvView, admin: Address, vendor: Address, name: Seq<u8>)
    requires
        register_outcome(pre, admin, vendor, name).1 is Ok,
    ensures
        ({
            let post = register_outcome(pre, admin, vendor, name).0;
            &&& post.vendors.contains_key(vendor)
            &&& post.vendors[vendor] == (VendorInfoView {
                name,
                registration_date: pre.timestamp,
                active: true,
                total_sales: 0,
            })
            &&& stored_count(post) == stored_count(pre) + 1
            &&& forall|other: Address|
                other != vendor ==> #[trigger] post.vendors.contains_key(other)
                    == pre.vendors.contains_key(other) && (pre.vendors.contains_key(other)
                    ==> post.vendors[other] == pre.vendors[other])
        }),
{
}

/// A vendor cannot be registered twice: once a registration has succeeded,
/// registering the same vendor again, under any name, is refused with
/// `VendorAlreadyRegistered` and changes nothing.
pub proof fn second_registration_refused(
    pre: EnvView,
    admin: Address,
    vendor: Address,
    name: Seq<u8>,
    other_name: Seq<u8>,
)
    requires
        register_outcome(pre, admin, vendor, name).1 is Ok,
    ensures
        ({
            let post = register_outcome(pre, admin, vendor, name).0;
            register_outcome(post, admin, vendor, other_name) == (
                post,
                Err::<(), Error>(Error::VendorAlreadyRegistered),
            )
        }),
{
}

/// In storage where no vendor and no count were written, the count matches.
pub proof fn count_matches_initially(e: EnvView)
    requires
        e.vendors == Map::<Address, VendorInfoView>::empty(),
        e.vendor_count is None,
    ensures
        count_matches(e),
{
    assert(e.vendors.dom() =~= Set::<Address>::empty());
}

/// Every successful call keeps the vendor count equal to the number of
/// registered vendors.
pub proof fn count_tracks_vendors(pre: EnvView, call: Invocation)
    requires
        count_matches(pre),
        outcome(pre, call).1 is Ok,
    ensures
        count_matches(outcome(pre, call).0),
{
    let post = outcome(pre, call).0;
    match call {
        Invocation::DeactivateVendor { vendor, .. } => {
            assert(post.vendors.dom() =~= pre.vendors.dom());
        },
        Invocation::ActivateVendor { vendor, .. } => {
            assert(post.vendors.dom() =~= pre.vendors.dom());
        },
        Invocation::SetVendorStatus { vendor, .. } => {
            assert(post.vendors.dom() =~= pre.vendors.dom());
        },
        _ => {},
    }
}

/// `set_vendor_status(true)` is `activate_vendor` and `set_vendor_status(false)`
/// is `deactivate_vendor`: same result, same state, same events.
pub proof fn status_entry_points_agree(pre: EnvView, admin: Address, vendor: Address)
    ensures
        outcome(pre, Invocation::SetVendorStatus { admin, vendor, active: true }) == outcome(
            pre,
            Invocation::ActivateVendor { admin, vendor },
        ),
        outcome(pre, Invocation::SetVendorStatus { admin, vendor, active: false }) == outcome(
            pre,
            Invocation::DeactivateVendor { admin, vendor },
        ),
{
}

/// With an admin stored, `upgrade` succeeds, requests the code replacement,
/// and leaves storage at the current schema version or above; storage is
/// otherwise what `migrate` would leave.
pub proof fn upgrade_replaces_code_then_migrates(pre: EnvView, new_wasm_hash: [u8; 32])
    requires
        pre.admin is Some,
    ensures
        ({
            let (post, r) = upgrade_outcome(pre, new_wasm_hash);
            &&& r == Ok::<(), Error>(())
            &&& post.host_calls == pre.host_calls.push(
                HostCall::UpdateCurrentContractWasm(new_wasm_hash),
            )
            &&& stored_schema_version(post) >= CURRENT_SCHEMA_VERSION
            &&& post.schema_version == migrate_outcome(pre).0.schema_version
            &&& post.vendors == pre.vendors
            &&& post.admin == pre.admin
        }),
{
}

/// A refused call changes nothing, unless it was refused because the vendor
/// count could not grow (then the new vendor's entry has been written).
pub proof fn refused_call_changes_nothing(pre: EnvView, call: Invocation)
    requires
        outcome(pre, call).1 is Err,
        outcome(pre, call).1 != Err::<(), Error>(Error::Overflow),
    ensures
        outcome(pre, call).0 == pre,
{
}

/// Only the admin can register vendors or change their status: for any other
/// caller these calls are refused with `Unauthorized` and change nothing.
pub proof fn only_admin_changes_vendors(
    pre: EnvView,
    caller: Address,
    vendor: Address,
    name: Seq<u8>,
    active: bool,
)
    requires
        pre.admin is Some,
        pre.admin != Some(caller),
    ensures
        register_outcome(pre, caller, vendor, name) == (pre, Err::<(), Error>(Error::Unauthorized)),
        status_outcome(pre, caller, vendor, active) == (pre, Err::<(), Error>(Error::Unauthorized)),
{
}

/// Setting a vendor's status changes only its `active` flag, and no other
/// vendor.
pub proof fn status_reads_back(pre: EnvView, admin: Address, vendor: Address, active: bool)
    requires
        status_outcome(pre, admin, vendor, active).1 is Ok,
    ensures
        ({
            let post = status_outcome(pre, admin, vendor, active).0;
            &&& post.vendors.contains_key(vendor)
            &&& post.vendors[vendor] == VendorInfoView { active, ..pre.vendors[vendor] }
            &&& post.vendors.dom() == pre.vendors.dom()
            &&& forall|other: Address|
                other != vendor && #[trigger] pre.vendors.contains_key(other) ==> post.vendors[other]
                    == pre.vendors[other]
            &&& stored_count(post) == stored_count(pre)
        }),
{
    let post = status_outcome(pre, admin, vendor, active).0;
    assert(post.vendors.dom() =~= pre.vendors.dom());
}

/// Deactivating an active vendor and activating it again gives back the
/// vendors as they were.
pub proof fn deactivate_then_activate_restores(pre: EnvView, admin: Address, vendor: Address)
    requires
        admin_check(pre, admin) is Ok,
        pre.vendors.contains_key(vendor),
        pre.vendors[vendor].active,
    ensures
        ({
            let mid = status_outcome(pre, admin, vendor, false);
            let post = status_outcome(mid.0, admin, vendor, true);
            &&& mid.1 is Ok
            &&& post.1 is Ok
            &&& post.0.vendors == pre.vendors
        }),
{
    let mid = status_outcome(pre, admin, vendor, false).0;
    let post = status_outcome(mid, admin, vendor, true).0;
    assert(post.vendors =~= pre.vendors);
}

/// `migrate` is idempotent: a second call changes nothing, and afterwards the
/// schema version is at least the current one.
pub proof fn migrate_idempotent(pre: EnvView)
    ensures
        migrate_outcome(migrate_outcome(pre).0) == migrate_outcome(pre),
        stored_schema_version(migrate_outcome(pre).0) >= CURRENT_SCHEMA_VERSION,
{
}

/// After the admin is handed over, the former admin (when different) is
/// refused, and the new admin passes the admin check.
pub proof fn set_admin_hands_over(pre: EnvView, new_admin: Address, former: Address)
    requires
        pre.admin == Some(former),
        former != new_admin,
    ensures
        set_admin_outcome(pre, new_admin).1 is Ok,
        admin_check(set_admin_outcome(pre, new_admin).0, former) == Err::<(), Error>(Error::Unauthorized),
        admin_check(set_admin_outcome(pre, new_admin).0, new_admin) == Ok::<(), Error>(()),
{
}

/// The vendor count read is the count stored, and 0 when none is stored.
pub proof fn count_reads_stored_value(e: EnvView)
    ensures
        e.vendor_count matches Some(c) ==> stored_count(e) == c,
        e.vendor_count is None ==> stored_count(e) == 0,
        e.schema_version matches Some(v) ==> stored_schema_version(e) == v,
        e.schema_version is None ==> stored_schema_version(e) == 0,
{
}

/// The admin check passes exactly for the stored admin; with no admin stored
/// it answers `NotInitialized`, and for anyone else `Unauthorized`.
pub proof fn admin_check_answers(e: EnvView, caller: Address)
    ensures
        e.admin == Some(caller) ==> admin_check(e, caller) == Ok::<(), Error>(()),
        e.admin is None ==> admin_check(e, caller) == Err::<(), Error>(Error::NotInitialized),
        (e.admin is Some && e.admin != Some(caller)) ==> admin_check(e, caller) == Err::<(), Error>(
            Error::Unauthorized,
        ),
{
}

/// Every persistent write asks to extend the entry's life to 2,073,600 ledgers
/// once fewer than 1,036,800 remain.
pub proof fn extension_amounts(key: PersistentKey)
    ensures
        persistent_extension(key) == (TtlExtension {
            key,
            threshold: 1_036_800u32,
            extend_to: 2_073_600u32,
        }),
{
}

/// Registration is refused exactly in these cases, checked in this order: no
/// admin stored, caller not the admin, vendor already registered, name empty
/// or longer than 64 bytes, count at its largest; otherwise it succeeds. The
/// result depends on the name only through its length.
pub proof fn registration_result(pre: EnvView, admin: Address, vendor: Address, name: Seq<u8>)
    ensures
        pre.admin is None ==> register_outcome(pre, admin, vendor, name).1 == Err::<(), Error>(
            Error::NotInitialized,
        ),
        (pre.admin is Some && pre.admin != Some(admin)) ==> register_outcome(pre, admin, vendor, name).1
            == Err::<(), Error>(Error::Unauthorized),
        (pre.admin == Some(admin) && pre.vendors.contains_key(vendor)) ==> register_outcome(
            pre,
            admin,
            vendor,
            name,
        ).1 == Err::<(), Error>(Error::VendorAlreadyRegistered),
        (pre.admin == Some(admin) && !pre.vendors.contains_key(vendor) && (name.len() == 0
            || name.len() > 64)) ==> register_outcome(pre, admin, vendor, name).1 == Err::<(), Error>(
            Error::InvalidName,
        ),
        (pre.admin == Some(admin) && !pre.vendors.contains_key(vendor) && 1 <= name.len() <= 64
            && stored_count(pre) == u64::MAX) ==> register_outcome(pre, admin, vendor, name).1 == Err::<
            (),
            Error,
        >(Error::Overflow),
        (pre.admin == Some(admin) && !pre.vendors.contains_key(vendor) && 1 <= name.len() <= 64
            && stored_count(pre) < u64::MAX) ==> register_outcome(pre, admin, vendor, name).1 == Ok::<
            (),
            Error,
        >(()),
{
}

/// When the admin registers a new vendor under a name of 1 to 64 bytes and the
/// count can grow, the call succeeds: the vendor is stored with that name, the
/// ledger time, active and with no sales, the count grows by one, the
/// registration is published, and nothing else about the vendors changes.
pub proof fn admin_registration_succeeds(
    pre: EnvView,
    admin: Address,
    vendor: Address,
    name: Seq<u8>,
)
    requires
        pre.admin == Some(admin),
        !pre.vendors.contains_key(vendor),
        1 <= name.len() <= 64,
        stored_count(pre) < u64::MAX,
    ensures
        ({
            let (post, r) = register_outcome(pre, admin, vendor, name);
            &&& r == Ok::<(), Error>(())
            &&& post.vendors == pre.vendors.insert(
                vendor,
                VendorInfoView {
                    name,
                    registration_date: pre.timestamp,
                    active: true,
                    total_sales: 0,
                },
            )
            &&& post.vendor_count == Some((stored_count(pre) + 1) as u64)
            &&& post.events.len() == pre.events.len() + 1
            &&& post.events.last() == (EventView::VendorRegistered { vendor, name })
            &&& post.events.drop_last() == pre.events
            &&& post.ttl_extensions == pre.ttl_extensions.push(
                TtlExtension {
                    key: PersistentKey::Vendor(vendor),
                    threshold: 1_036_800u32,
                    extend_to: 2_073_600u32,
                },
            ).push(
                TtlExtension {
                    key: PersistentKey::VendorCount,
                    threshold: 1_036_800u32,
                    extend_to: 2_073_600u32,
                },
            )
            &&& post.admin == pre.admin
            &&& post.schema_version == pre.schema_version
            &&& post.locked == pre.locked
            &&& post.version == pre.version
            &&& post.host_calls == pre.host_calls
            &&& post.timestamp == pre.timestamp
            &&& post.authorized == pre.authorized
        }),
{
}

/// When the admin sets the status of a registered vendor, whatever its
/// current status and whatever was published before, the call succeeds, the
/// vendor's flag becomes `active` with the rest of its entry kept, no other
/// vendor changes, and the change is published.
pub proof fn admin_status_change_succeeds(
    pre: EnvView,
    admin: Address,
    vendor: Address,
    active: bool,
)
    requires
        pre.admin == Some(admin),
        pre.vendors.contains_key(vendor),
    ensures
        ({
            let (post, r) = status_outcome(pre, admin, vendor, active);
            &&& r == Ok::<(), Error>(())
            &&& post.vendors.contains_key(vendor)
            &&& post.vendors[vendor].active == active
            &&& post.vendors[vendor].name == pre.vendors[vendor].name
            &&& post.vendors[vendor].registration_date == pre.vendors[vendor].registration_date
            &&& post.vendors[vendor].total_sales == pre.vendors[vendor].total_sales
            &&& post.vendors.remove(vendor) == pre.vendors.remove(vendor)
            &&& post.vendor_count == pre.vendor_count
            &&& post.admin == pre.admin
            &&& post.events.len() == pre.events.len() + 1
            &&& post.events.last() == (EventView::VendorStatus { vendor, active })
            &&& post.events.drop_last() == pre.events
            &&& post.ttl_extensions == pre.ttl_extensions.push(
                TtlExtension {
                    key: PersistentKey::Vendor(vendor),
                    threshold: 1_036_800u32,
                    extend_to: 2_073_600u32,
                },
            )
            &&& post.schema_version == pre.schema_version
            &&& post.locked == pre.locked
            &&& post.version == pre.version
            &&& post.host_calls == pre.host_calls
        }),
{
    let post = status_outcome(pre, admin, vendor, active).0;
    assert(post.vendors.remove(vendor) =~= pre.vendors.remove(vendor));
}

/// Handing over the admin role changes the admin only: the vendors, the count,
/// the schema version, the lock, the version, the events and the extensions
/// asked for stay as they were.
pub proof fn set_admin_changes_only_admin(pre: EnvView, new_admin: Address)
    requires
        pre.admin is Some,
    ensures
        ({
            let (post, r) = set_admin_outcome(pre, new_admin);
            &&& r == Ok::<(), Error>(())
            &&& post.admin == Some(new_admin)
            &&& post.vendors == pre.vendors
            &&& post.vendor_count == pre.vendor_count
            &&& post.schema_version == pre.schema_version
            &&& post.locked == pre.locked
            &&& post.version == pre.version
            &&& post.events == pre.events
            &&& post.ttl_extensions == pre.ttl_extensions
            &&& post.host_calls == pre.host_calls
        }),
{
}

/// Migration from a schema version below the current one writes the current
/// version; from the current one or above it changes nothing.
pub proof fn migrate_writes_current_version(pre: EnvView)
    ensures
        migrate_outcome(pre).1 == Ok::<(), Error>(()),
        stored_schema_version(pre) < CURRENT_SCHEMA_VERSION ==> migrate_outcome(pre).0.schema_version
            == Some(CURRENT_SCHEMA_VERSION) && migrate_outcome(pre).0.ttl_extensions
            == pre.ttl_extensions.push(
            TtlExtension {
                key: PersistentKey::SchemaVersion,
                threshold: 1_036_800u32,
                extend_to: 2_073_600u32,
            },
        ),
        stored_schema_version(pre) >= CURRENT_SCHEMA_VERSION ==> migrate_outcome(pre).0 == pre,
        migrate_outcome(pre).0.vendors == pre.vendors,
        migrate_outcome(pre).0.vendor_count == pre.vendor_count,
        migrate_outcome(pre).0.admin == pre.admin,
        migrate_outcome(pre).0.events == pre.events,
        migrate_outcome(pre).0.host_calls == pre.host_calls,
        CURRENT_SCHEMA_VERSION == 1,
{
}

} // verus!
