//! Syscall router: from a driver identifier to a service invocation.
//!
//! The router owns a registry mapping numeric driver identifiers to service
//! objects. [`DriverRegistry::dispatch`] looks the identifier up and, if a
//! service is registered there, forwards the four-word command request to
//! it; if none is, the request fails with `NODEVICE` and no service is ever
//! invoked. The router validates nothing beyond the lookup — argument
//! checking is the service's own business — so routing is allocation-free
//! and takes time linear only in the (small, boot-time-fixed) registry.
//!
//! Identifiers are assigned by convention; the registry does not enforce
//! their uniqueness, and a collision is a configuration bug. Lookup finds
//! the earliest registered entry.

use vstd::prelude::*;

use crate::drivers::EchoDriver;
use crate::drivers::LifeDriver;
use crate::drivers::MaryDriver;
use crate::drivers::echo_command;
use crate::drivers::life_command;
use crate::drivers::mary_command;
use crate::sys_redirect::SysRedirect;
use crate::syscall::CommandReturn;
use crate::syscall::ErrorCode;
use crate::syscall::ProcessId;

verus! {

/// One registrable in-kernel service.
///
/// The kernel avoids dynamic dispatch on the syscall path; the closed set
/// of services a board registers is spelled out here, and the router
/// forwards a command with one `match`.
pub enum KernelDriver {
    Life(LifeDriver),
    Mary(MaryDriver),
    Redirect(SysRedirect),
    Echo(EchoDriver),
}

/// What [`KernelDriver::command`] answers, per service.
pub open spec fn driver_command(d: KernelDriver, command_num: u32, data: u32) -> CommandReturn {
    match d {
        KernelDriver::Life(_) => life_command(command_num, data),
        KernelDriver::Mary(_) => mary_command(command_num, data),
        KernelDriver::Redirect(_) => mary_command(command_num, data),
        KernelDriver::Echo(_) => echo_command(command_num, data),
    }
}

impl KernelDriver {
    /// Forward a command request to the service.
    pub fn command(&self, command_num: u32, data: u32, arg1: u32, process: ProcessId) -> (r:
        CommandReturn)
        ensures
            r == driver_command(*self, command_num, data),
    {
        match self {
            KernelDriver::Life(d) => d.command(command_num, data, arg1, process),
            KernelDriver::Mary(d) => d.command(command_num, data, arg1, process),
            KernelDriver::Redirect(d) => d.command(command_num, data, arg1, process),
            KernelDriver::Echo(d) => d.command(command_num, data, arg1, process),
        }
    }
}

/// First registry entry whose identifier matches, if any.
pub open spec fn lookup(entries: Seq<(u32, KernelDriver)>, driver_number: u32) -> Option<
    KernelDriver,
>
    decreases entries.len(),
{
    if entries.len() == 0 {
        None
    } else if entries[0].0 == driver_number {
        Some(entries[0].1)
    } else {
        lookup(entries.skip(1), driver_number)
    }
}

/// What [`DriverRegistry::dispatch`] answers: the registered service's
/// answer, or `NODEVICE` when no service owns the identifier.
pub open spec fn dispatch_result(
    entries: Seq<(u32, KernelDriver)>,
    driver_number: u32,
    subdriver_number: u32,
    arg0: u32,
) -> CommandReturn {
    match lookup(entries, driver_number) {
        Some(d) => driver_command(d, subdriver_number, arg0),
        None => CommandReturn::Failure(ErrorCode::Nodevice),
    }
}

/// The driver registry: identifier-to-service pairs in registration order.
pub struct DriverRegistry {
    entries: Vec<(u32, KernelDriver)>,
}

impl DriverRegistry {
    /// The registered pairs, in registration order.
    pub closed spec fn entries(&self) -> Seq<(u32, KernelDriver)> {
        self.entries@
    }

    /// An empty registry: every lookup fails.
    pub fn new() -> (r: DriverRegistry)
        ensures
            r.entries() == Seq::<(u32, KernelDriver)>::empty(),
    {
        DriverRegistry { entries: Vec::new() }
    }

    /// Register a service under an identifier.
    pub fn register(&mut self, driver_number: u32, driver: KernelDriver)
        ensures
            final(self).entries() == old(self).entries().push((driver_number, driver)),
    {
        self.entries.push((driver_number, driver));
    }

    /// Look the identifier up; the earliest registered entry wins.
    ///
    /// Lookup is a precondition for routing, never a side-effecting
    /// operation.
    pub fn with_driver(&self, driver_number: u32) -> (r: Option<&KernelDriver>)
        ensures
            match r {
                Some(d) => lookup(self.entries(), driver_number) == Some(*d),
                None => lookup(self.entries(), driver_number) is None,
            },
    {
        let n = self.entries.len();
        let mut i: usize = 0;
        proof {
            assert(self.entries@.skip(0) =~= self.entries@);
        }
        while i < n
            invariant
                i <= n,
                n == self.entries@.len(),
                lookup(self.entries@, driver_number) == lookup(
                    self.entries@.skip(i as int),
                    driver_number,
                ),
            decreases n - i,
        {
            if self.entries[i].0 == driver_number {
                proof {
                    reveal_with_fuel(lookup, 2);
                    assert(self.entries@.skip(i as int)[0] == self.entries@[i as int]);
                }
                return Some(&self.entries[i].1);
            }
            proof {
                reveal_with_fuel(lookup, 2);
                assert(self.entries@.skip(i as int)[0] == self.entries@[i as int]);
                assert(self.entries@.skip(i as int).skip(1) =~= self.entries@.skip(i + 1));
            }
            i = i + 1;
        }
        proof {
            assert(self.entries@.skip(n as int) =~= Seq::<(u32, KernelDriver)>::empty());
        }
        None
    }

    /// Route a four-word command request to the service registered under
    /// `driver_number`.
    ///
    /// When no service is registered there, the request fails with
    /// `NODEVICE` and no service is invoked; otherwise the answer is
    /// exactly the service's answer. The result is what the kernel later
    /// writes back into the requesting process's stored state.
    pub fn dispatch(
        &self,
        driver_number: u32,
        subdriver_number: u32,
        arg0: u32,
        arg1: u32,
        process: ProcessId,
    ) -> (r: CommandReturn)
        ensures
            r == dispatch_result(self.entries(), driver_number, subdriver_number, arg0),
            lookup(self.entries(), driver_number) is None ==> r == CommandReturn::Failure(
                ErrorCode::Nodevice,
            ),
    {
        match self.with_driver(driver_number) {
            Some(d) => d.command(subdriver_number, arg0, arg1, process),
            None => CommandReturn::failure(ErrorCode::Nodevice),
        }
    }
}

} // verus!
