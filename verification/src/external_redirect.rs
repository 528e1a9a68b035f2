//! Redirection of externally marked syscalls onto the router.
//!
//! A lighter companion of the serial tunnel: it only tracks whether an
//! external syscall awaits service and, when one does, routes a fixed
//! probe request through the registry. The request is dispatched under the
//! endpoint's own process identity.

use vstd::prelude::*;

use crate::router::DriverRegistry;
use crate::router::dispatch_result;
use crate::syscall::CommandReturn;
use crate::syscall::ProcessId;
use crate::syscall::Syscall;

verus! {

/// Driver number of the fixed probe request serviced by
/// [`ExternalCall::service_pending`].
pub const REDIRECT_DRIVER_NUMBER: u32 = 2;

/// Subdriver number of the fixed probe request.
pub const REDIRECT_SUBDRIVER_NUMBER: u32 = 1;

/// First argument of the fixed probe request.
pub const REDIRECT_ARG0: u32 = 1;

/// One redirection endpoint: a process identity and a pending flag.
pub struct ExternalCall {
    processid: ProcessId,
    waiting: bool,
}

impl ExternalCall {
    /// The identity under which redirected requests are dispatched.
    pub closed spec fn process_id(&self) -> ProcessId {
        self.processid
    }

    /// Whether an external syscall awaits service.
    pub closed spec fn pending(&self) -> bool {
        self.waiting
    }

    /// An endpoint with the given dispatch identity and nothing pending.
    pub fn new(identifier: u32) -> (r: ExternalCall)
        ensures
            r.process_id() == (ProcessId { identifier, index: 0 }),
            !r.pending(),
    {
        let processid = ProcessId::new(identifier, 0);
        ExternalCall { processid, waiting: false }
    }

    /// True iff an external syscall awaits service.
    pub fn has_tasks(&self) -> (r: bool)
        ensures
            r == self.pending(),
    {
        self.waiting
    }

    /// Mark an external syscall as awaiting service.
    pub fn set(&mut self)
        ensures
            final(self).process_id() == old(self).process_id(),
            final(self).pending(),
    {
        self.waiting = true;
    }

    /// Service the pending external syscall, if any: clear the flag and
    /// route the fixed probe request; `None` when nothing was pending.
    pub fn service_pending(&mut self, registry: &DriverRegistry) -> (r: Option<CommandReturn>)
        ensures
            final(self).process_id() == old(self).process_id(),
            !final(self).pending(),
            !old(self).pending() ==> r is None,
            old(self).pending() ==> r == Some(
                dispatch_result(
                    registry.entries(),
                    REDIRECT_DRIVER_NUMBER,
                    REDIRECT_SUBDRIVER_NUMBER,
                    REDIRECT_ARG0,
                ),
            ),
    {
        if !self.waiting {
            return None;
        }
        self.waiting = false;
        let syscall = Syscall::Command {
            driver_number: REDIRECT_DRIVER_NUMBER,
            subdriver_number: REDIRECT_SUBDRIVER_NUMBER,
            arg0: REDIRECT_ARG0,
            arg1: 0,
        };
        Some(handle_external_syscall(registry, self.processid, syscall))
    }
}

/// Route a redirected command request through the registry and hand its
/// result back: `NODEVICE` for an identifier nobody registered, the
/// registered service's answer otherwise.
pub fn handle_external_syscall(
    registry: &DriverRegistry,
    processid: ProcessId,
    syscall: Syscall,
) -> (r: CommandReturn)
    ensures
        match syscall {
            Syscall::Command { driver_number, subdriver_number, arg0, arg1 } => r
                == dispatch_result(registry.entries(), driver_number, subdriver_number, arg0),
        },
{
    let Syscall::Command { driver_number, subdriver_number, arg0, arg1 } = syscall;
    registry.dispatch(driver_number, subdriver_number, arg0, arg1, processid)
}

} // verus!
