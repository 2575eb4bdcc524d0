//! Properties of the parameters storage that span calls.
use vstd::prelude::*;

use crate::ledger::TtlExtension;
use crate::parameters::storage::{persistent_extension, PersistentKey};

use crate::address::Address;
use crate::parameters::errors::ParametersError;
use crate::parameters::storage::{
    admin_result, parameters_result, stored_locked, stored_schema_version, stored_version, EnvView,
};
use crate::parameters::types::ProtocolParameters;

verus! {

/// In storage where nothing was written, the admin and the parameters are
/// missing, the lock is not held, the version is 1 and the schema version 0.
pub proof fn unwritten_defaults(e: EnvView)
    requires
        e.admin is None,
        e.params is None,
        e.locked is None,
        e.version is None,
        e.schema_version is None,
    ensures
        admin_result(e) == Err::<Address, ParametersError>(ParametersError::NotInitialized),
        parameters_result(e) == Err::<ProtocolParameters, ParametersError>(
            ParametersError::NotInitialized,
        ),
        !stored_locked(e),
        stored_version(e) == 1,
        stored_schema_version(e) == 0,
{
}

/// The admin written is the admin read, and the parameters are untouched.
pub proof fn admin_reads_back(pre: EnvView, admin: Address)
    ensures
        admin_result(EnvView { admin: Some(admin), ..pre }) == Ok::<Address, ParametersError>(admin),
        parameters_result(EnvView { admin: Some(admin), ..pre }) == parameters_result(pre),
{
}

/// The parameters written are the parameters read, and the admin is untouched.
pub proof fn parameters_read_back(pre: EnvView, params: ProtocolParameters)
    ensures
        parameters_result(EnvView { params: Some(params), ..pre }) == Ok::<
            ProtocolParameters,
            ParametersError,
        >(params),
        admin_result(EnvView { params: Some(params), ..pre }) == admin_result(pre),
{
}

/// The lock, version and schema version written are the ones read.
pub proof fn flags_read_back(pre: EnvView, locked: bool, version: u32, schema_version: u32)
    ensures
        stored_locked(EnvView { locked: Some(locked), ..pre }) == locked,
        stored_version(EnvView { version: Some(version), ..pre }) == version,
        stored_schema_version(EnvView { schema_version: Some(schema_version), ..pre })
            == schema_version,
{
}

/// Every read answers the value stored: the admin and parameters when stored
/// (`NotInitialized` otherwise), the lock (false when unset), the version (1
/// when unset) and the schema version (0 when unset).
pub proof fn reads_answer_stored_values(e: EnvView)
    ensures
        e.admin matches Some(a) ==> admin_result(e) == Ok::<Address, ParametersError>(a),
        e.admin is None ==> admin_result(e) == Err::<Address, ParametersError>(
            ParametersError::NotInitialized,
        ),
        e.params matches Some(p) ==> parameters_result(e) == Ok::<ProtocolParameters, ParametersError>(p),
        e.params is None ==> parameters_result(e) == Err::<ProtocolParameters, ParametersError>(
            ParametersError::NotInitialized,
        ),
        e.locked matches Some(b) ==> stored_locked(e) == b,
        e.locked is None ==> !stored_locked(e),
        e.version matches Some(v) ==> stored_version(e) == v,
        e.version is None ==> stored_version(e) == 1,
        e.schema_version matches Some(v) ==> stored_schema_version(e) == v,
        e.schema_version is None ==> stored_schema_version(e) == 0,
{
}

/// Writing the schema version asks to extend its entry's life to 2,073,600
/// ledgers once fewer than 1,036,800 remain.
pub proof fn extension_amounts(key: PersistentKey)
    ensures
        persistent_extension(key) == (TtlExtension {
            key,
            threshold: 1_036_800u32,
            extend_to: 2_073_600u32,
        }),
{
}

} // verus!
