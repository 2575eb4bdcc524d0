use registry_contracts::address::{Address, AddressKind};
use registry_contracts::ledger::TtlExtension;
use registry_contracts::parameters::errors::ParametersError;
use registry_contracts::parameters::storage::{
    get_admin, get_parameters, get_schema_version, get_version, has_admin, is_reentrancy_locked,
    set_admin, set_parameters, set_reentrancy_locked, set_schema_version, set_version, Env,
    PersistentKey, PERSISTENT_TTL_EXTEND_TO, PERSISTENT_TTL_THRESHOLD,
};
use registry_contracts::parameters::types::ProtocolParameters;

fn param_account(b: u8) -> Address {
    Address { kind: AddressKind::Account, id: [b; 32] }
}

#[test]
fn parameters_defaults() {
    let env = Env::new();
    assert!(!has_admin(&env));
    assert_eq!(get_admin(&env), Err(ParametersError::NotInitialized));
    assert_eq!(get_parameters(&env), Err(ParametersError::NotInitialized));
    assert_eq!(is_reentrancy_locked(&env), Ok(false));
    assert_eq!(get_version(&env), Ok(1));
    assert_eq!(get_schema_version(&env), 0);
}

#[test]
fn parameters_admin_and_values_read_back() {
    let mut env = Env::new();
    set_admin(&mut env, &param_account(4));
    assert!(has_admin(&env));
    assert_eq!(get_admin(&env), Ok(param_account(4)));
    let p = ProtocolParameters { fee_bps: 250, max_items_per_listing: 10, dispute_window_secs: 86_400 };
    set_parameters(&mut env, &p);
    assert_eq!(get_parameters(&env), Ok(p));
    assert_eq!(get_admin(&env), Ok(param_account(4)));
    set_reentrancy_locked(&mut env, true);
    assert_eq!(is_reentrancy_locked(&env), Ok(true));
    set_reentrancy_locked(&mut env, false);
    assert_eq!(is_reentrancy_locked(&env), Ok(false));
    set_version(&mut env, 3);
    assert_eq!(get_version(&env), Ok(3));
    assert!(env.ttl_extensions.is_empty());
}

#[test]
fn parameters_schema_version_extends_ttl() {
    let mut env = Env::new();
    set_schema_version(&mut env, 2);
    assert_eq!(get_schema_version(&env), 2);
    assert_eq!(
        env.ttl_extensions,
        vec![TtlExtension {
            key: PersistentKey::SchemaVersion,
            threshold: 1_036_800,
            extend_to: 2_073_600
        }]
    );
    assert_eq!(PERSISTENT_TTL_THRESHOLD, 1_036_800);
    assert_eq!(PERSISTENT_TTL_EXTEND_TO, 2_073_600);
}
