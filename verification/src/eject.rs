//! The two-phase self-ejection protocol.
//!
//! The payload cannot unmap the code it is running from, so unloading is
//! inverted: the payload creates a named thread key, a background loop polls
//! it, and once the key is observed `true` the payload runs a caller-supplied
//! cleanup action exactly once and then asks the host to perform the unmap,
//! handing back the process and module handles it was given at entry.
//!
//! The watcher is a state machine: `Waiting` until the key is observed
//! `true`, then `CleaningUp`, then `EjectRequested`, which is terminal. The
//! caller drives it: [`EjectWatcher::poll_step`] makes one flag observation
//! (the caller sleeps between observations), and once it fires,
//! [`EjectWatcher::request_ejection`] runs the cleanup and asks for the
//! unmap. There is no timeout and no cancellation: polling continues until
//! the flag fires or the process dies.

use vstd::prelude::*;

use crate::gateway::Gateway;
use crate::host::HostCall;
use crate::host::HostServices;
use crate::host::ModuleHandle;
use crate::host::ProcessHandle;

verus! {

/// Where the self-ejection protocol stands.
#[derive(Clone, Copy, PartialEq, Eq, Structural, Debug)]
pub enum EjectPhase {
    /// The flag has not yet been observed `true`.
    Waiting,
    /// The flag was observed `true`; cleanup is owed before ejection.
    CleaningUp,
    /// Cleanup ran and the host was asked to unload the payload. Terminal.
    EjectRequested,
}

/// What one step of the protocol does, beyond polling.
#[derive(Clone, Copy, PartialEq, Eq, Structural, Debug)]
pub enum EjectAction {
    /// The caller-supplied cleanup action runs.
    RunCleanup,
    /// The host's ejection capability is invoked.
    RequestEject,
}

/// The actions a watcher performs over a sequence of flag observations:
/// nothing at all until the first `true`, then cleanup followed at once by
/// the single ejection request, and nothing ever after. Each observation is
/// one [`EjectWatcher::poll_step`]; `RunCleanup` and `RequestEject` are what
/// [`EjectWatcher::request_ejection`] then does once a poll has fired, in
/// that order.
pub open spec fn watcher_actions(flags: Seq<bool>) -> Seq<EjectAction>
    decreases flags.len(),
{
    if flags.len() == 0 {
        Seq::empty()
    } else if flags[0] {
        seq![EjectAction::RunCleanup, EjectAction::RequestEject]
    } else {
        watcher_actions(flags.skip(1))
    }
}

/// Law: while the flag is never observed `true`, the watcher performs no
/// action at all — in particular it never asks for ejection.
pub proof fn lemma_no_flag_no_actions(flags: Seq<bool>)
    requires
        forall|i: int| 0 <= i < flags.len() ==> !flags[i],
    ensures
        watcher_actions(flags) == Seq::<EjectAction>::empty(),
    decreases flags.len(),
{
    if flags.len() > 0 {
        assert(forall|i: int| 0 <= i < flags.skip(1).len() ==> !flags.skip(1)[i]);
        lemma_no_flag_no_actions(flags.skip(1));
    }
}

/// Law: over any sequence of observations the watcher either does nothing —
/// exactly when the flag was never `true` — or performs the cleanup exactly
/// once, immediately followed by exactly one ejection request, and the
/// ejection is never before the cleanup.
pub proof fn lemma_cleanup_once_then_eject(flags: Seq<bool>)
    ensures
        (exists|i: int| 0 <= i < flags.len() && flags[i]) ==> watcher_actions(flags) =~= seq![
            EjectAction::RunCleanup,
            EjectAction::RequestEject,
        ],
        !(exists|i: int| 0 <= i < flags.len() && flags[i]) ==> watcher_actions(flags)
            == Seq::<EjectAction>::empty(),
    decreases flags.len(),
{
    if flags.len() == 0 {
    } else if flags[0] {
    } else {
        lemma_cleanup_once_then_eject(flags.skip(1));
        assert(forall|i: int| 0 <= i < flags.skip(1).len() ==> flags.skip(1)[i] == flags[i + 1]);
        if exists|i: int| 0 <= i < flags.len() && flags[i] {
            let i = choose|i: int| 0 <= i < flags.len() && flags[i];
            assert(flags.skip(1)[i - 1]);
        }
    }
}

/// One armed self-ejection watcher: the flag it polls, the handles it will
/// hand back to the host, and where the protocol stands.
pub struct EjectWatcher {
    phase: EjectPhase,
    process: ProcessHandle,
    payload: ModuleHandle,
    key: String,
}

impl EjectWatcher {
    /// Where the protocol stands.
    pub closed spec fn phase(&self) -> EjectPhase {
        self.phase
    }

    /// The handle to the owning process, as given at entry.
    pub closed spec fn process(&self) -> ProcessHandle {
        self.process
    }

    /// The handle to the payload module, as given at entry.
    pub closed spec fn payload(&self) -> ModuleHandle {
        self.payload
    }

    /// The name of the thread key the watcher polls.
    pub closed spec fn key(&self) -> Seq<char> {
        self.key@
    }

    /// Where the protocol stands, for callers that drive the watcher.
    pub fn current_phase(&self) -> (phase: EjectPhase)
        ensures
            phase == self.phase(),
    {
        self.phase
    }

    /// Arms the self-ejection protocol: creates the named thread key, sets
    /// it to `false`, and returns a watcher in `Waiting` that remembers the
    /// handles to give back on ejection. While the gateway is uninitialized
    /// the host is not touched; the watcher then waits forever, since an
    /// absent table answers every poll with `false`.
    pub fn setup_auto_eject<H: HostServices>(
        gateway: &mut Gateway<H>,
        identifier: String,
        process: ProcessHandle,
        payload: ModuleHandle,
    ) -> (watcher: EjectWatcher)
        ensures
            watcher.phase() is Waiting,
            watcher.process() == process,
            watcher.payload() == payload,
            watcher.key() == identifier@,
            !old(gateway).initialized() ==> *final(gateway) == *old(gateway),
            old(gateway).initialized() ==> final(gateway).initialized(),
            old(gateway).initialized() ==> final(gateway).host().state() == old(
                gateway,
            ).host().state().logged(HostCall::CreateThreadKey(identifier@)).with_thread_key(
                identifier@,
                false,
            ).logged(HostCall::SetThreadKey(identifier@, false)).with_thread_key(
                identifier@,
                false,
            ),
            old(gateway).initialized() ==> final(gateway).host().state().thread_key_value(
                identifier@,
            ) == false,
    {
        gateway.create_thread_key(identifier.clone());
        gateway.set_thread_key_value(identifier.clone(), false);
        EjectWatcher { phase: EjectPhase::Waiting, process, payload, key: identifier }
    }

    /// One poll of the flag. Fires — and moves to `CleaningUp` — exactly
    /// when the gateway is initialized and the key reads `true`; otherwise
    /// everything is left as it was and the caller sleeps and polls again.
    /// Polling is a pure observation: the gateway is not changed.
    pub fn poll_step<H: HostServices>(&mut self, gateway: &Gateway<H>) -> (fired: bool)
        requires
            old(self).phase() is Waiting,
        ensures
            fired == (gateway.initialized() && gateway.host().state().thread_key_value(
                old(self).key(),
            )),
            final(self).phase() == (if fired {
                EjectPhase::CleaningUp
            } else {
                EjectPhase::Waiting
            }),
            final(self).process() == old(self).process(),
            final(self).payload() == old(self).payload(),
            final(self).key() == old(self).key(),
    {
        let observed = gateway.get_thread_key(self.key.clone());
        if observed {
            self.phase = EjectPhase::CleaningUp;
        }
        observed
    }

    /// Runs the caller-supplied cleanup action, then — and only then — asks
    /// the host to unload the payload with the handles given at entry, and
    /// moves to the terminal phase. Taking the cleanup by value makes a
    /// second run of it impossible; the contract records that it ran.
    pub fn request_ejection<H: HostServices, C: FnOnce()>(
        &mut self,
        gateway: &mut Gateway<H>,
        cleanup: C,
    )
        requires
            old(self).phase() is CleaningUp,
            call_requires(cleanup, ()),
        ensures
            call_ensures(cleanup, (), ()),
            final(self).phase() is EjectRequested,
            final(self).process() == old(self).process(),
            final(self).payload() == old(self).payload(),
            final(self).key() == old(self).key(),
            !old(gateway).initialized() ==> *final(gateway) == *old(gateway),
            old(gateway).initialized() ==> final(gateway).initialized(),
            old(gateway).initialized() ==> final(gateway).host().state() == old(
                gateway,
            ).host().state().logged(
                HostCall::Eject(old(self).process(), old(self).payload()),
            ).with_ejection(old(self).process(), old(self).payload()),
    {
        cleanup();
        gateway.dynamic_eject_payload(self.process, self.payload);
        self.phase = EjectPhase::EjectRequested;
    }
}

} // verus!
