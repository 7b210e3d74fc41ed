//! Per-message routing for the dispatch loop: parse the message, then resolve
//! its device-set expression against the registry's visible snapshot.
//!
//! The loop around this — receiving decoded messages, issuing one command
//! invocation per resolved device, logging and swallowing per-invocation
//! failures — is the caller's: no rejection or empty resolution here is ever
//! fatal to dispatch.
use vstd::prelude::*;
use crate::command::{args_view, parse_spec, validate_osc_message, CommandBroadcast, OscMessage,
    ParseError};
use crate::device::Device;
use crate::registry::{visible, Registry};
use crate::resolver::{filter_devices, resolves};

verus! {

/// Routes one inbound message: the validated broadcast together with the
/// devices it targets, or the exact rejection. A broadcast whose expression
/// no entry matches targets no devices, without error.
pub fn route_message(registry: &Registry, message: &OscMessage) -> (r: Result<
    (CommandBroadcast, Vec<Device>),
    ParseError,
>)
    ensures
        match r {
            Ok(p) => ({
                &&& parse_spec(message.addr@, args_view(message.args)) matches Ok(bv) && bv
                    == p.0@
                &&& resolves(p.0@.devices_set, visible(*registry), p.1.deep_view())
            }),
            Err(e) => (parse_spec(message.addr@, args_view(message.args)) matches Err(e2) && e2
                == e),
        },
{
    match validate_osc_message(message) {
        Ok(broadcast) => {
            let devices = filter_devices(broadcast.devices_set.as_str(), registry);
            Ok((broadcast, devices))
        },
        Err(e) => Err(e),
    }
}

} // verus!
