//! The ledger storage of the protocol parameters contract.
//!
//! Instance storage holds the admin (`ADMIN`), the parameters (`PARAMS`), the
//! reentrancy lock (`LOCKED`) and the contract version (`VERSION`); persistent
//! storage holds the schema version (`SCH_VER`).
use vstd::prelude::*;

use crate::address::Address;
use crate::ledger::TtlExtension;
use crate::parameters::errors::ParametersError;
use crate::parameters::types::ProtocolParameters;

verus! {

/// When fewer ledgers than this remain, a persistent entry that is written is
/// given a longer life.
pub const PERSISTENT_TTL_THRESHOLD: u32 = 1_036_800;

/// The time to live, in ledgers, that a written persistent entry is given.
pub const PERSISTENT_TTL_EXTEND_TO: u32 = 2_073_600;

/// The persistent entries of this contract.
#[derive(Clone, Copy, Debug, PartialEq, Eq)]
pub enum PersistentKey {
    /// The schema version, stored under `SCH_VER`.
    SchemaVersion,
}

/// The part of the host environment that this contract reads and writes: its
/// storage entries, and the time-to-live extensions it has asked for, in order.
pub struct Env {
    pub admin: Option<Address>,
    pub params: Option<ProtocolParameters>,
    pub locked: Option<bool>,
    pub version: Option<u32>,
    pub schema_version: Option<u32>,
    pub ttl_extensions: Vec<TtlExtension<PersistentKey>>,
}

/// The value of an [`Env`].
pub struct EnvView {
    pub admin: Option<Address>,
    pub params: Option<ProtocolParameters>,
    pub locked: Option<bool>,
    pub version: Option<u32>,
    pub schema_version: Option<u32>,
    pub ttl_extensions: Seq<TtlExtension<PersistentKey>>,
}

impl View for Env {
    type V = EnvView;

    open spec fn view(&self) -> EnvView {
        EnvView {
            admin: self.admin,
            params: self.params,
            locked: self.locked,
            version: self.version,
            schema_version: self.schema_version,
            ttl_extensions: self.ttl_extensions@,
        }
    }
}

impl Env {
    /// An environment in which nothing has been stored.
    pub fn new() -> (env: Env)
        ensures
            env@ == (EnvView {
                admin: None,
                params: None,
                locked: None,
                version: None,
                schema_version: None,
                ttl_extensions: Seq::empty(),
            }),
    {
        Env {
            admin: None,
            params: None,
            locked: None,
            version: None,
            schema_version: None,
            ttl_extensions: Vec::new(),
        }
    }
}

/// The extension that every write of a persistent entry asks for.
pub open spec fn persistent_extension(key: PersistentKey) -> TtlExtension<PersistentKey> {
    TtlExtension { key, threshold: PERSISTENT_TTL_THRESHOLD, extend_to: PERSISTENT_TTL_EXTEND_TO }
}

/// What reading the admin answers.
pub open spec fn admin_result(e: EnvView) -> Result<Address, ParametersError> {
    match e.admin {
        Some(a) => Ok(a),
        None => Err(ParametersError::NotInitialized),
    }
}

/// What reading the protocol parameters answers.
pub open spec fn parameters_result(e: EnvView) -> Result<ProtocolParameters, ParametersError> {
    match e.params {
        Some(p) => Ok(p),
        None => Err(ParametersError::NotInitialized),
    }
}

/// The reentrancy lock: not held when never set.
pub open spec fn stored_locked(e: EnvView) -> bool {
    match e.locked {
        Some(b) => b,
        None => false,
    }
}

/// The contract version: 1 when never set.
pub open spec fn stored_version(e: EnvView) -> u32 {
    match e.version {
        Some(v) => v,
        None => 1,
    }
}

/// The schema version: 0 when never set.
pub open spec fn stored_schema_version(e: EnvView) -> u32 {
    match e.schema_version {
        Some(v) => v,
        None => 0,
    }
}

/// Whether an admin has been stored.
pub fn has_admin(env: &Env) -> (r: bool)
    ensures
        r == env@.admin is Some,
{
    env.admin.is_some()
}

/// The stored admin.
pub fn get_admin(env: &Env) -> (r: Result<Address, ParametersError>)
    ensures
        r == admin_result(env@),
{
    match env.admin {
        Some(a) => Ok(a),
        None => Err(ParametersError::NotInitialized),
    }
}

/// Stores `admin` as the admin.
pub fn set_admin(env: &mut Env, admin: &Address)
    ensures
        final(env)@ == (EnvView { admin: Some(*admin), ..old(env)@ }),
{
    env.admin = Some(*admin);
}

/// The stored protocol parameters.
pub fn get_parameters(env: &Env) -> (r: Result<ProtocolParameters, ParametersError>)
    ensures
        r == parameters_result(env@),
{
    match env.params {
        Some(p) => Ok(p),
        None => Err(ParametersError::NotInitialized),
    }
}

/// Stores `params` as the protocol parameters.
pub fn set_parameters(env: &mut Env, params: &ProtocolParameters)
    ensures
        final(env)@ == (EnvView { params: Some(*params), ..old(env)@ }),
{
    env.params = Some(*params);
}

/// Whether the reentrancy lock is held; it is not when it was never set.
pub fn is_reentrancy_locked(env: &Env) -> (r: Result<bool, ParametersError>)
    ensures
        r == Ok::<bool, ParametersError>(stored_locked(env@)),
{
    match env.locked {
        Some(b) => Ok(b),
        None => Ok(false),
    }
}

/// Stores the reentrancy lock.
pub fn set_reentrancy_locked(env: &mut Env, locked: bool)
    ensures
        final(env)@ == (EnvView { locked: Some(locked), ..old(env)@ }),
{
    env.locked = Some(locked);
}

/// The contract version; 1 when it was never set.
pub fn get_version(env: &Env) -> (r: Result<u32, ParametersError>)
    ensures
        r == Ok::<u32, ParametersError>(stored_version(env@)),
{
    match env.version {
        Some(v) => Ok(v),
        None => Ok(1),
    }
}

/// Stores the contract version.
pub fn set_version(env: &mut Env, v: u32)
    ensures
        final(env)@ == (EnvView { version: Some(v), ..old(env)@ }),
{
    env.version = Some(v);
}

/// The schema version; 0 when it was never set.
pub fn get_schema_version(env: &Env) -> (r: u32)
    ensures
        r == stored_schema_version(env@),
{
    match env.schema_version {
        Some(v) => v,
        None => 0,
    }
}

/// Stores the schema version and extends the life of its entry.
pub fn set_schema_version(env: &mut Env, version: u32)
    ensures
        final(env)@ == (EnvView {
            schema_version: Some(version),
            ttl_extensions: old(env)@.ttl_extensions.push(
                persistent_extension(PersistentKey::SchemaVersion),
            ),
            ..old(env)@
        }),
{
    env.schema_version = Some(version);
    env.ttl_extensions.push(
        TtlExtension {
            key: PersistentKey::SchemaVersion,
            threshold: PERSISTENT_TTL_THRESHOLD,
            extend_to: PERSISTENT_TTL_EXTEND_TO,
        },
    );
}

} // verus!
