use registry_contracts::address::{Address, AddressKind};
use registry_contracts::ledger::TtlExtension;
use registry_contracts::vendor_registry::errors::Error;
use registry_contracts::vendor_registry::storage::{
    get_vendor, get_vendor_count, has_vendor, increment_vendor_count, set_vendor, Env,
    PersistentKey, CURRENT_SCHEMA_VERSION,
};
use registry_contracts::vendor_registry::types::{Event, HostCall, VendorInfo};
use registry_contracts::vendor_registry::{VendorRegistryContract, VendorRegistryError};

fn acct(b: u8) -> Address {
    Address { kind: AddressKind::Account, id: [b; 32] }
}

fn contract_addr(b: u8) -> Address {
    Address { kind: AddressKind::Contract, id: [b; 32] }
}

fn ext(key: PersistentKey) -> TtlExtension<PersistentKey> {
    TtlExtension { key, threshold: 1_036_800, extend_to: 2_073_600 }
}

/// An initialized registry at time 1000 whose invocations carry the
/// authorization of accounts 1 (the admin) and 2.
fn initialized() -> Env {
    let mut env = Env::new(1000, vec![acct(1), acct(2)]);
    assert_eq!(VendorRegistryContract::initialize(&mut env, acct(1)), Ok(()));
    env
}

#[test]
fn initialize_only_once() {
    let mut env = Env::new(5, vec![]);
    assert_eq!(VendorRegistryContract::initialize(&mut env, acct(1)), Ok(()));
    assert_eq!(env.admin, Some(acct(1)));
    assert_eq!(VendorRegistryContract::initialize(&mut env, acct(2)), Err(Error::AlreadyInitialized));
    assert_eq!(env.admin, Some(acct(1)));
}

#[test]
fn register_vendor_stores_info_and_counts() {
    let mut env = initialized();
    let v = contract_addr(9);
    assert_eq!(VendorRegistryContract::register_vendor(&mut env, acct(1), v, b"Acme".to_vec()), Ok(()));
    let info = VendorRegistryContract::get_vendor_info(&env, v).unwrap();
    assert_eq!(
        info,
        VendorInfo { name: b"Acme".to_vec(), registration_date: 1000, active: true, total_sales: 0 }
    );
    assert!(VendorRegistryContract::is_active(&env, v));
    assert_eq!(VendorRegistryContract::get_vendor_count(&env), Ok(1));
    assert_eq!(env.ttl_extensions, vec![ext(PersistentKey::Vendor(v)), ext(PersistentKey::VendorCount)]);
    assert_eq!(env.events, vec![Event::VendorRegistered { vendor: v, name: b"Acme".to_vec() }]);

    let w = contract_addr(10);
    assert_eq!(VendorRegistryContract::register_vendor(&mut env, acct(1), w, b"B".to_vec()), Ok(()));
    assert_eq!(VendorRegistryContract::get_vendor_count(&env), Ok(2));
}

#[test]
fn register_vendor_refusals() {
    let mut fresh = Env::new(0, vec![acct(1)]);
    assert_eq!(
        VendorRegistryContract::register_vendor(&mut fresh, acct(1), acct(3), b"x".to_vec()),
        Err(Error::NotInitialized)
    );

    let mut env = initialized();
    assert_eq!(
        VendorRegistryContract::register_vendor(&mut env, acct(2), acct(3), b"x".to_vec()),
        Err(Error::Unauthorized)
    );
    assert!(!has_vendor(&env, &acct(3)));
    assert_eq!(
        VendorRegistryContract::register_vendor(&mut env, acct(1), acct(3), Vec::new()),
        Err(Error::InvalidName)
    );
    assert_eq!(
        VendorRegistryContract::register_vendor(&mut env, acct(1), acct(3), vec![b'a'; 65]),
        Err(Error::InvalidName)
    );
    assert_eq!(VendorRegistryContract::register_vendor(&mut env, acct(1), acct(3), vec![b'a'; 64]), Ok(()));
    assert_eq!(
        VendorRegistryContract::register_vendor(&mut env, acct(1), acct(3), b"again".to_vec()),
        Err(Error::VendorAlreadyRegistered)
    );
    assert_eq!(VendorRegistryContract::get_vendor_count(&env), Ok(1));
    assert_eq!(env.events.len(), 1);
}

#[test]
fn register_vendor_count_overflow() {
    let mut env = initialized();
    env.vendor_count = Some(u64::MAX);
    assert_eq!(
        VendorRegistryContract::register_vendor(&mut env, acct(1), acct(3), b"x".to_vec()),
        Err(Error::Overflow)
    );
    assert!(has_vendor(&env, &acct(3)));
    assert_eq!(get_vendor_count(&env), Ok(u64::MAX));
    assert!(env.events.is_empty());
    let mut e2 = initialized();
    e2.vendor_count = Some(u64::MAX);
    assert_eq!(increment_vendor_count(&mut e2), Err(Error::Overflow));
    assert!(e2.ttl_extensions.is_empty());
}

#[test]
fn vendor_status_changes() {
    let mut env = initialized();
    let v = acct(7);
    VendorRegistryContract::register_vendor(&mut env, acct(1), v, b"Shop".to_vec()).unwrap();
    assert_eq!(VendorRegistryContract::deactivate_vendor(&mut env, acct(1), v), Ok(()));
    assert!(!VendorRegistryContract::is_active(&env, v));
    assert_eq!(VendorRegistryContract::activate_vendor(&mut env, acct(1), v), Ok(()));
    assert!(VendorRegistryContract::is_active(&env, v));
    assert_eq!(VendorRegistryContract::set_vendor_status(&mut env, acct(1), v, false), Ok(()));
    assert!(!VendorRegistryContract::is_active(&env, v));
    let info = get_vendor(&env, &v).unwrap();
    assert_eq!(info.name, b"Shop".to_vec());
    assert_eq!(info.registration_date, 1000);
    assert_eq!(
        env.events[1..].to_vec(),
        vec![
            Event::VendorStatus { vendor: v, active: false },
            Event::VendorStatus { vendor: v, active: true },
            Event::VendorStatus { vendor: v, active: false },
        ]
    );
    assert_eq!(VendorRegistryContract::get_vendor_count(&env), Ok(1));
}

#[test]
fn vendor_status_refusals() {
    let mut env = initialized();
    assert_eq!(VendorRegistryContract::activate_vendor(&mut env, acct(1), acct(5)), Err(Error::VendorNotFound));
    assert_eq!(VendorRegistryContract::deactivate_vendor(&mut env, acct(1), acct(5)), Err(Error::VendorNotFound));
    VendorRegistryContract::register_vendor(&mut env, acct(1), acct(5), b"S".to_vec()).unwrap();
    assert_eq!(VendorRegistryContract::deactivate_vendor(&mut env, acct(2), acct(5)), Err(Error::Unauthorized));
    assert_eq!(
        VendorRegistryContract::set_vendor_status(&mut env, acct(2), acct(5), false),
        Err(Error::Unauthorized)
    );
    assert!(VendorRegistryContract::is_active(&env, acct(5)));
    let mut fresh = Env::new(0, vec![acct(1)]);
    assert_eq!(
        VendorRegistryContract::set_vendor_status(&mut fresh, acct(1), acct(5), true),
        Err(Error::NotInitialized)
    );
}

#[test]
fn readers_before_initialization() {
    let env = Env::new(0, vec![]);
    assert!(!VendorRegistryContract::is_active(&env, acct(1)));
    assert_eq!(VendorRegistryContract::get_vendor_info(&env, acct(1)), Err(Error::NotInitialized));
    assert_eq!(VendorRegistryContract::get_vendor_count(&env), Err(Error::NotInitialized));
    let env2 = initialized();
    assert_eq!(VendorRegistryContract::get_vendor_info(&env2, acct(3)), Err(Error::VendorNotFound));
    assert_eq!(VendorRegistryContract::get_vendor_count(&env2), Ok(0));
    assert!(!VendorRegistryContract::is_active(&env2, acct(3)));
}

#[test]
fn set_admin_hands_over_control() {
    let mut env = initialized();
    assert_eq!(VendorRegistryContract::set_admin(&mut env, acct(2)), Ok(()));
    assert_eq!(env.admin, Some(acct(2)));
    assert_eq!(
        VendorRegistryContract::register_vendor(&mut env, acct(1), acct(3), b"x".to_vec()),
        Err(VendorRegistryError::Unauthorized)
    );
    assert_eq!(VendorRegistryContract::register_vendor(&mut env, acct(2), acct(3), b"x".to_vec()), Ok(()));
    let mut fresh = Env::new(0, vec![]);
    assert_eq!(VendorRegistryContract::set_admin(&mut fresh, acct(2)), Err(Error::NotInitialized));
}

#[test]
fn migrate_is_idempotent() {
    let mut env = initialized();
    assert_eq!(VendorRegistryContract::migrate(&mut env), Ok(()));
    assert_eq!(env.schema_version, Some(CURRENT_SCHEMA_VERSION));
    assert_eq!(env.ttl_extensions, vec![ext(PersistentKey::SchemaVersion)]);
    assert_eq!(VendorRegistryContract::migrate(&mut env), Ok(()));
    assert_eq!(env.schema_version, Some(1));
    assert_eq!(env.ttl_extensions.len(), 1);
    let mut newer = initialized();
    newer.schema_version = Some(5);
    assert_eq!(VendorRegistryContract::migrate(&mut newer), Ok(()));
    assert_eq!(newer.schema_version, Some(5));
    assert!(newer.ttl_extensions.is_empty());
}

#[test]
fn upgrade_replaces_code_and_migrates() {
    let mut env = initialized();
    assert_eq!(VendorRegistryContract::upgrade(&mut env, [7; 32]), Ok(()));
    assert_eq!(env.host_calls, vec![HostCall::UpdateCurrentContractWasm([7; 32])]);
    assert_eq!(env.schema_version, Some(CURRENT_SCHEMA_VERSION));
    assert_eq!(env.ttl_extensions, vec![ext(PersistentKey::SchemaVersion)]);
    assert_eq!(VendorRegistryContract::upgrade(&mut env, [8; 32]), Ok(()));
    assert_eq!(
        env.host_calls,
        vec![HostCall::UpdateCurrentContractWasm([7; 32]), HostCall::UpdateCurrentContractWasm([8; 32])]
    );
    assert_eq!(env.ttl_extensions.len(), 1);
}

#[test]
fn upgrade_without_admin_is_refused() {
    let mut fresh = Env::new(0, vec![acct(1)]);
    assert_eq!(VendorRegistryContract::upgrade(&mut fresh, [7; 32]), Err(Error::NotInitialized));
    assert!(fresh.host_calls.is_empty());
    assert!(fresh.ttl_extensions.is_empty());
    assert_eq!(fresh.schema_version, None);
}

#[test]
fn storage_vendor_roundtrip() {
    let mut env = Env::new(0, vec![]);
    assert_eq!(get_vendor(&env, &acct(4)), Err(Error::VendorNotFound));
    let info = VendorInfo { name: b"Z".to_vec(), registration_date: 3, active: false, total_sales: 12 };
    set_vendor(&mut env, &acct(4), &info);
    assert_eq!(get_vendor(&env, &acct(4)), Ok(info));
    assert_eq!(increment_vendor_count(&mut env), Ok(()));
    assert_eq!(get_vendor_count(&env), Ok(1));
}
