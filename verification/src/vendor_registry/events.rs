//! Events published by the registry.
use vstd::prelude::*;

use crate::address::Address;
use crate::vendor_registry::storage::{Env, EnvView};
use crate::vendor_registry::types::{Event, EventView};

verus! {

/// Publishes that `vendor` was registered under `name`.
pub fn publish_vendor_registered(env: &mut Env, vendor: Address, name: Vec<u8>)
    ensures
        final(env)@ == (EnvView {
            events: old(env)@.events.push(EventView::VendorRegistered { vendor, name: name@ }),
            ..old(env)@
        }),
{
    let ghost pre = env@;
    let ghost n = name@;
    env.events.push(Event::VendorRegistered { vendor, name });
    proof {
        assert(env@.events =~= pre.events.push(EventView::VendorRegistered { vendor, name: n }));
    }
}

/// Publishes that the active status of `vendor` was set to `active`.
pub fn publish_vendor_status(env: &mut Env, vendor: Address, active: bool)
    ensures
        final(env)@ == (EnvView {
            events: old(env)@.events.push(EventView::VendorStatus { vendor, active }),
            ..old(env)@
        }),
{
    let ghost pre = env@;
    env.events.push(Event::VendorStatus { vendor, active });
    proof {
        assert(env@.events =~= pre.events.push(EventView::VendorStatus { vendor, active }));
    }
}

} // verus!
