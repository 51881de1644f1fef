//! A gateway between an injected payload and the host process that loaded it.
//!
//! The host hands the payload a table of capabilities (logging, memory
//! inspection, script execution, UI construction, thread-key signalling,
//! licensing checks, and self-ejection) exactly once, at injection time.
//! This crate publishes that table once, exposes typed accessors that fall
//! back to safe defaults while no table is present, and drives the two-phase
//! self-ejection protocol in which the host, not the payload, performs the
//! final unload.

use vstd::prelude::*;

pub mod eject;
pub mod gateway;
pub mod host;
pub mod model_host;

use crate::gateway::Gateway;
use crate::host::HostCall;
use crate::host::HostServices;
use crate::host::ModuleHandle;
use crate::host::ProcessHandle;

verus! {

/// The line the gateway logs once it is active.
pub open spec fn gateway_banner() -> Seq<char> {
    "Arctic Gateway template active!"@
}

/// The payload's entry point, invoked once by the host with the handles to
/// the owning process and to the loaded module, and with the capability
/// table. The table is published first-wins; a banner line is logged; then —
/// this payload being a template that does nothing further of its own — the
/// host is at once asked to unload it again with the handles it passed in.
/// Nothing is ever signalled back to the host: the call has no return value.
pub fn arctic_gateway<H: HostServices>(
    gateway: &mut Gateway<H>,
    process: ProcessHandle,
    payload: ModuleHandle,
    functions: H,
)
    ensures
        final(gateway).initialized(),
        !old(gateway).initialized() ==> final(gateway).host().state() == functions.state().logged(
            HostCall::Log(gateway_banner()),
        ).logged(HostCall::Eject(process, payload)).with_ejection(process, payload),
        old(gateway).initialized() ==> final(gateway).host().state() == old(
            gateway,
        ).host().state().logged(HostCall::Log(gateway_banner())).logged(
            HostCall::Eject(process, payload),
        ).with_ejection(process, payload),
{
    gateway.initialize(functions);
    gateway.dynamic_log("Arctic Gateway template active!");
    gateway.dynamic_eject_payload(process, payload);
}

} // verus!
