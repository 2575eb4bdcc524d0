use registry_contracts::address::{Address, AddressKind};
use registry_contracts::ledger::TtlExtension;
use registry_contracts::reputation::errors::ReputationError;
use registry_contracts::reputation::storage::{
    get_admin, get_schema_version, get_version, is_reentrancy_locked, is_updater, read_score,
    set_admin, set_reentrancy_locked, set_schema_version, set_updater, set_version, write_score, Env,
    PersistentKey,
};

fn rep_account(b: u8) -> Address {
    Address { kind: AddressKind::Account, id: [b; 32] }
}

#[test]
fn reputation_defaults() {
    let env = Env::new();
    assert_eq!(get_admin(&env), Err(ReputationError::NotInitialized));
    assert_eq!(read_score(&env, &rep_account(1)), Ok(0));
    assert_eq!(is_updater(&env, &rep_account(1)), Ok(false));
    assert_eq!(is_reentrancy_locked(&env), Ok(false));
    assert_eq!(get_version(&env), Ok(1));
    assert_eq!(get_schema_version(&env), 0);
}

#[test]
fn reputation_scores_read_back() {
    let mut env = Env::new();
    write_score(&mut env, &rep_account(1), 70);
    write_score(&mut env, &rep_account(2), 15);
    assert_eq!(read_score(&env, &rep_account(1)), Ok(70));
    assert_eq!(read_score(&env, &rep_account(2)), Ok(15));
    assert_eq!(read_score(&env, &rep_account(3)), Ok(0));
    write_score(&mut env, &rep_account(1), 0);
    assert_eq!(read_score(&env, &rep_account(1)), Ok(0));
    assert_eq!(read_score(&env, &rep_account(2)), Ok(15));
    assert_eq!(is_updater(&env, &rep_account(1)), Ok(false));
}

#[test]
fn reputation_updater_grant_and_withdraw() {
    let mut env = Env::new();
    set_updater(&mut env, &rep_account(5), true);
    set_updater(&mut env, &rep_account(6), true);
    assert_eq!(is_updater(&env, &rep_account(5)), Ok(true));
    set_updater(&mut env, &rep_account(5), false);
    assert_eq!(is_updater(&env, &rep_account(5)), Ok(false));
    assert_eq!(is_updater(&env, &rep_account(6)), Ok(true));
    // a withdrawal on an empty store still stores a (now empty) map
    let mut fresh = Env::new();
    set_updater(&mut fresh, &rep_account(9), false);
    assert!(fresh.updaters.is_some());
    assert_eq!(is_updater(&fresh, &rep_account(9)), Ok(false));
}

#[test]
fn reputation_admin_flags_and_schema() {
    let mut env = Env::new();
    set_admin(&mut env, &rep_account(8));
    assert_eq!(get_admin(&env), Ok(rep_account(8)));
    set_reentrancy_locked(&mut env, true);
    assert_eq!(is_reentrancy_locked(&env), Ok(true));
    set_version(&mut env, 7);
    assert_eq!(get_version(&env), Ok(7));
    set_schema_version(&mut env, 4);
    assert_eq!(get_schema_version(&env), 4);
    assert_eq!(
        env.ttl_extensions,
        vec![TtlExtension { key: PersistentKey::SchemaVersion, threshold: 1_036_800, extend_to: 2_073_600 }]
    );
}
