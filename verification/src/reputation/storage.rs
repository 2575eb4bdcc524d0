//! The ledger storage of the reputation contract.
//!
//! Instance storage holds the admin (`ADMIN`), the map of authorized updaters
//! (`UPDATERS`), the map of scores (`SCORES`), the reentrancy lock (`LOCKED`)
//! and the contract version (`VERSION`); persistent storage holds the schema
//! version (`SCH_VER`).
use vstd::prelude::*;

use crate::address::Address;
use crate::address_map::AddressMap;
use crate::ledger::TtlExtension;
use crate::reputation::errors::ReputationError;

verus! {

/// When fewer ledgers than this remain, a persistent entry that is written is
/// given a longer life.
pub const PERSISTENT_TTL_THRESHOLD: u32 = 1_036_800;

/// The time to live, in ledgers, that a written persistent entry is given.
pub const PERSISTENT_TTL_EXTEND_TO: u32 = 2_073_600;

/// The persistent entries of this contract.
#[derive(Clone, Copy, Debug, PartialEq, Eq)]
pub enum PersistentKey {
    /// The schema version, stored under `SCH_VER`.
    SchemaVersion,
}

/// The part of the host environment that this contract reads and writes: its
/// storage entries, and the time-to-live extensions it has asked for, in order.
pub struct Env {
    pub admin: Option<Address>,
    pub updaters: Option<AddressMap<bool>>,
    pub scores: Option<AddressMap<u32>>,
    pub locked: Option<bool>,
    pub version: Option<u32>,
    pub schema_version: Option<u32>,
    pub ttl_extensions: Vec<TtlExtension<PersistentKey>>,
}

/// The value of an [`Env`].
pub struct EnvView {
    pub admin: Option<Address>,
    pub updaters: Option<Map<Address, bool>>,
    pub scores: Option<Map<Address, u32>>,
    pub locked: Option<bool>,
    pub version: Option<u32>,
    pub schema_version: Option<u32>,
    pub ttl_extensions: Seq<TtlExtension<PersistentKey>>,
}

/// The value of a stored map, if one is stored.
pub open spec fn stored_map<V: View>(m: Option<AddressMap<V>>) -> Option<Map<Address, V::V>> {
    match m {
        Some(m) => Some(m@),
        None => None,
    }
}

impl View for Env {
    type V = EnvView;

    open spec fn view(&self) -> EnvView {
        EnvView {
            admin: self.admin,
            updaters: stored_map(self.updaters),
            scores: stored_map(self.scores),
            locked: self.locked,
            version: self.version,
            schema_version: self.schema_version,
            ttl_extensions: self.ttl_extensions@,
        }
    }
}

impl Env {
    /// An environment in which nothing has been stored.
    pub fn new() -> (env: Env)
        ensures
            env@ == (EnvView {
                admin: None,
                updaters: None,
                scores: None,
                locked: None,
                version: None,
                schema_version: None,
                ttl_extensions: Seq::empty(),
            }),
    {
        Env {
            admin: None,
            updaters: None,
            scores: None,
            locked: None,
            version: None,
            schema_version: None,
            ttl_extensions: Vec::new(),
        }
    }
}

/// The extension that every write of a persistent entry asks for.
pub open spec fn persistent_extension(key: PersistentKey) -> TtlExtension<PersistentKey> {
    TtlExtension { key, threshold: PERSISTENT_TTL_THRESHOLD, extend_to: PERSISTENT_TTL_EXTEND_TO }
}

/// The stored scores; a missing map reads as an empty one.
pub open spec fn score_map(e: EnvView) -> Map<Address, u32> {
    match e.scores {
        Some(m) => m,
        None => Map::empty(),
    }
}

/// The stored updater flags; a missing map reads as an empty one.
pub open spec fn updater_map(e: EnvView) -> Map<Address, bool> {
    match e.updaters {
        Some(m) => m,
        None => Map::empty(),
    }
}

/// The score of `user`: 0 when none is stored.
pub open spec fn score_of(e: EnvView, user: Address) -> u32 {
    if score_map(e).contains_key(user) {
        score_map(e)[user]
    } else {
        0
    }
}

/// Whether `addr` is an authorized updater: false when no flag is stored.
pub open spec fn updater_flag(e: EnvView, addr: Address) -> bool {
    if updater_map(e).contains_key(addr) {
        updater_map(e)[addr]
    } else {
        false
    }
}

/// What reading the admin answers.
pub open spec fn admin_result(e: EnvView) -> Result<Address, ReputationError> {
    match e.admin {
        Some(a) => Ok(a),
        None => Err(ReputationError::NotInitialized),
    }
}

/// The reentrancy lock: not held when never set.
pub open spec fn stored_locked(e: EnvView) -> bool {
    match e.locked {
        Some(b) => b,
        None => false,
    }
}

/// The contract version: 1 when never set.
pub open spec fn stored_version(e: EnvView) -> u32 {
    match e.version {
        Some(v) => v,
        None => 1,
    }
}

/// The schema version: 0 when never set.
pub open spec fn stored_schema_version(e: EnvView) -> u32 {
    match e.schema_version {
        Some(v) => v,
        None => 0,
    }
}

/// The state after `user`'s score is written as `score`: the whole score map,
/// with that entry, is stored.
pub open spec fn with_score(e: EnvView, user: Address, score: u32) -> EnvView {
    EnvView { scores: Some(score_map(e).insert(user, score)), ..e }
}

/// The state after the updater role of `updater` is granted (`allowed`) or
/// withdrawn: the whole updater map is stored.
pub open spec fn with_updater(e: EnvView, updater: Address, allowed: bool) -> EnvView {
    EnvView {
        updaters: Some(
            if allowed {
                updater_map(e).insert(updater, true)
            } else {
                updater_map(e).remove(updater)
            },
        ),
        ..e
    }
}

/// The stored admin.
pub fn get_admin(env: &Env) -> (r: Result<Address, ReputationError>)
    ensures
        r == admin_result(env@),
{
    match env.admin {
        Some(a) => Ok(a),
        None => Err(ReputationError::NotInitialized),
    }
}

/// Stores `admin` as the admin.
pub fn set_admin(env: &mut Env, admin: &Address)
    ensures
        final(env)@ == (EnvView { admin: Some(*admin), ..old(env)@ }),
{
    env.admin = Some(*admin);
}

/// The reputation score of `user`, 0 when none was written.
pub fn read_score(env: &Env, user: &Address) -> (r: Result<u32, ReputationError>)
    ensures
        r == Ok::<u32, ReputationError>(score_of(env@, *user)),
{
    let score: u32 = match &env.scores {
        Some(scores) => match scores.get(user) {
            Some(s) => *s,
            None => 0,
        },
        None => 0,
    };
    Ok(score)
}

/// Writes the reputation score of `user`; the whole score map is stored back.
pub fn write_score(env: &mut Env, user: &Address, score: u32)
    ensures
        final(env)@ == with_score(old(env)@, *user, score),
{
    let mut scores = match env.scores.take() {
        Some(m) => m,
        None => AddressMap::new(),
    };
    scores.insert(*user, score);
    env.scores = Some(scores);
}

/// Whether `addr` is an authorized updater.
pub fn is_updater(env: &Env, addr: &Address) -> (r: Result<bool, ReputationError>)
    ensures
        r == Ok::<bool, ReputationError>(updater_flag(env@, *addr)),
{
    let allowed: bool = match &env.updaters {
        Some(updaters) => match updaters.get(addr) {
            Some(b) => *b,
            None => false,
        },
        None => false,
    };
    Ok(allowed)
}

/// Grants (`allowed`) or withdraws the updater role of `updater`: a grant
/// stores `true` for it, a withdrawal drops its entry. The whole map is
/// stored back.
pub fn set_updater(env: &mut Env, updater: &Address, allowed: bool)
    ensures
        final(env)@ == with_updater(old(env)@, *updater, allowed),
{
    let mut updaters = match env.updaters.take() {
        Some(m) => m,
        None => AddressMap::new(),
    };
    if allowed {
        updaters.insert(*updater, true);
    } else {
        updaters.remove(updater);
    }
    env.updaters = Some(updaters);
}

/// Whether the reentrancy lock is held; it is not when it was never set.
pub fn is_reentrancy_locked(env: &Env) -> (r: Result<bool, ReputationError>)
    ensures
        r == Ok::<bool, ReputationError>(stored_locked(env@)),
{
    match env.locked {
        Some(b) => Ok(b),
        None => Ok(false),
    }
}

/// Stores the reentrancy lock.
pub fn set_reentrancy_locked(env: &mut Env, locked: bool)
    ensures
        final(env)@ == (EnvView { locked: Some(locked), ..old(env)@ }),
{
    env.locked = Some(locked);
}

/// The contract version; 1 when it was never set.
pub fn get_version(env: &Env) -> (r: Result<u32, ReputationError>)
    ensures
        r == Ok::<u32, ReputationError>(stored_version(env@)),
{
    match env.version {
        Some(v) => Ok(v),
        None => Ok(1),
    }
}

/// Stores the contract version.
pub fn set_version(env: &mut Env, v: u32)
    ensures
        final(env)@ == (EnvView { version: Some(v), ..old(env)@ }),
{
    env.version = Some(v);
}

/// The schema version; 0 when it was never set.
pub fn get_schema_version(env: &Env) -> (r: u32)
    ensures
        r == stored_schema_version(env@),
{
    match env.schema_version {
        Some(v) => v,
        None => 0,
    }
}

/// Stores the schema version and extends the life of its entry.
pub fn set_schema_version(env: &mut Env, version: u32)
    ensures
        final(env)@ == (EnvView {
            schema_version: Some(version),
            ttl_extensions: old(env)@.ttl_extensions.push(
                persistent_extension(PersistentKey::SchemaVersion),
            ),
            ..old(env)@
        }),
{
    env.schema_version = Some(version);
    env.ttl_extensions.push(
        TtlExtension {
            key: PersistentKey::SchemaVersion,
            threshold: PERSISTENT_TTL_THRESHOLD,
            extend_to: PERSISTENT_TTL_EXTEND_TO,
        },
    );
}

} // verus!
