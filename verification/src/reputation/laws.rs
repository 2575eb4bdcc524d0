//! Properties of the reputation storage that span calls.
use vstd::prelude::*;

use crate::ledger::TtlExtension;
use crate::reputation::storage::{persistent_extension, PersistentKey};

use crate::address::Address;
use crate::reputation::errors::ReputationError;
use crate::reputation::storage::{
    admin_result, score_of, stored_locked, stored_schema_version, stored_version, updater_flag,
    with_score, with_updater, EnvView,
};

verus! {

/// A user with no score written has score 0, and an address with no flag
/// written is no updater.
pub proof fn unwritten_defaults(e: EnvView, user: Address)
    requires
        e.scores is None,
        e.updaters is None,
    ensures
        score_of(e, user) == 0,
        !updater_flag(e, user),
{
}

/// The score written for a user is the score read for that user; the scores
/// of other users and all updater flags are unchanged.
pub proof fn score_reads_back(pre: EnvView, user: Address, score: u32, other: Address)
    ensures
        score_of(with_score(pre, user, score), user) == score,
        other != user ==> score_of(with_score(pre, user, score), other) == score_of(pre, other),
        updater_flag(with_score(pre, user, score), other) == updater_flag(pre, other),
{
}

/// After the updater role of an address is granted or withdrawn, the address
/// is an updater exactly when it was granted; other addresses and all scores
/// are unchanged.
pub proof fn updater_role_reads_back(pre: EnvView, updater: Address, allowed: bool, other: Address)
    ensures
        updater_flag(with_updater(pre, updater, allowed), updater) == allowed,
        other != updater ==> updater_flag(with_updater(pre, updater, allowed), other)
            == updater_flag(pre, other),
        score_of(with_updater(pre, updater, allowed), other) == score_of(pre, other),
{
}

/// The score read for a user is the value the stored score map holds for that
/// user, and 0 when no map or no entry for the user is stored.
pub proof fn read_score_answers_stored_value(e: EnvView, user: Address)
    ensures
        e.scores matches Some(m) ==> (m.contains_key(user) ==> score_of(e, user) == m[user]),
        e.scores matches Some(m) ==> (!m.contains_key(user) ==> score_of(e, user) == 0),
        e.scores is None ==> score_of(e, user) == 0,
{
}

/// Writing a score stores the score map with the user's entry set to that
/// very score (a fresh map when none was stored), and nothing else.
pub proof fn write_score_stores_value(e: EnvView, user: Address, score: u32)
    ensures
        e.scores matches Some(m) ==> with_score(e, user, score).scores == Some(m.insert(user, score)),
        e.scores is None ==> with_score(e, user, score).scores == Some(
            Map::<Address, u32>::empty().insert(user, score),
        ),
        with_score(e, user, score).updaters == e.updaters,
        with_score(e, user, score).admin == e.admin,
        with_score(e, user, score).locked == e.locked,
        with_score(e, user, score).version == e.version,
        with_score(e, user, score).schema_version == e.schema_version,
        with_score(e, user, score).ttl_extensions == e.ttl_extensions,
{
}

/// `is_updater` answers the flag the stored updater map holds for the
/// address, and false when no map or no entry is stored.
pub proof fn is_updater_answers_stored_flag(e: EnvView, addr: Address)
    ensures
        e.updaters matches Some(m) ==> (m.contains_key(addr) ==> updater_flag(e, addr) == m[addr]),
        e.updaters matches Some(m) ==> (!m.contains_key(addr) ==> !updater_flag(e, addr)),
        e.updaters is None ==> !updater_flag(e, addr),
{
}

/// A grant stores the updater map with the address's flag set to true; a
/// withdrawal stores it without the address's entry (an empty map when none
/// was stored); nothing else changes.
pub proof fn set_updater_stores_flag(e: EnvView, updater: Address, allowed: bool)
    ensures
        allowed ==> (e.updaters matches Some(m) ==> with_updater(e, updater, allowed).updaters
            == Some(m.insert(updater, true))),
        !allowed ==> (e.updaters matches Some(m) ==> with_updater(e, updater, allowed).updaters
            == Some(m.remove(updater))),
        e.updaters is None && allowed ==> with_updater(e, updater, allowed).updaters == Some(
            Map::<Address, bool>::empty().insert(updater, true),
        ),
        e.updaters is None && !allowed ==> with_updater(e, updater, allowed).updaters == Some(
            Map::<Address, bool>::empty(),
        ),
        with_updater(e, updater, allowed).scores == e.scores,
        with_updater(e, updater, allowed).admin == e.admin,
        with_updater(e, updater, allowed).locked == e.locked,
        with_updater(e, updater, allowed).version == e.version,
        with_updater(e, updater, allowed).schema_version == e.schema_version,
        with_updater(e, updater, allowed).ttl_extensions == e.ttl_extensions,
{
    if e.updaters is None && !allowed {
        assert(Map::<Address, bool>::empty().remove(updater) =~= Map::<Address, bool>::empty());
    }
}

/// The admin, lock, version and schema version read are the values stored,
/// with `NotInitialized`, false, 1 and 0 when nothing is stored.
pub proof fn reads_answer_stored_values(e: EnvView)
    ensures
        e.admin matches Some(a) ==> admin_result(e) == Ok::<Address, ReputationError>(a),
        e.admin is None ==> admin_result(e) == Err::<Address, ReputationError>(
            ReputationError::NotInitialized,
        ),
        e.locked matches Some(b) ==> stored_locked(e) == b,
        e.locked is None ==> !stored_locked(e),
        e.version matches Some(v) ==> stored_version(e) == v,
        e.version is None ==> stored_version(e) == 1,
        e.schema_version matches Some(v) ==> stored_schema_version(e) == v,
        e.schema_version is None ==> stored_schema_version(e) == 0,
{
}

/// Writing the schema version asks to extend its entry's life to 2,073,600
/// ledgers once fewer than 1,036,800 remain.
pub proof fn extension_amounts(key: PersistentKey)
    ensures
        persistent_extension(key) == (TtlExtension {
            key,
            threshold: 1_036_800u32,
            extend_to: 2_073_600u32,
        }),
{
}

} // verus!
