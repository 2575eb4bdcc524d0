//! Admin checks.
use vstd::prelude::*;

use crate::address::Address;
use crate::vendor_registry::errors::Error;
use crate::vendor_registry::storage::{get_admin, Env, EnvView};

verus! {

/// What an admin check of `caller` answers: the contract must have an admin,
/// and `caller` must be it.
pub open spec fn admin_check(e: EnvView, caller: Address) -> Result<(), Error> {
    match e.admin {
        None => Err(Error::NotInitialized),
        Some(a) => if a == caller {
            Ok(())
        } else {
            Err(Error::Unauthorized)
        },
    }
}

/// Checks that `caller`, whose authorization this invocation must carry, is
/// the admin.
pub fn require_admin(env: &Env, caller: &Address) -> (r: Result<(), Error>)
    requires
        env@.authorized.contains(*caller),
    ensures
        r == admin_check(env@, *caller),
{
    let admin = match get_admin(env) {
        Ok(a) => a,
        Err(e) => {
            return Err(e);
        },
    };
    if !caller.same_as(&admin) {
        return Err(Error::Unauthorized);
    }
    Ok(())
}

} // verus!
