//! Registry of services reachable over the external syscall tunnel.
//!
//! Identifiers of external services carry the most significant bit of the
//! word; the registry stores up to [`MAXDRIVERS`] identifier-to-service
//! pairs. Adding beyond the capacity is silently ignored — the table has no
//! growth path by design — and removal drops the earliest matching entry.

use vstd::prelude::*;

use crate::drivers::LIFE;
use crate::router::KernelDriver;
use crate::router::lookup;
use crate::syscall::CommandReturn;
use crate::syscall::ErrorCode;
use crate::syscall::ProcessId;

verus! {

/// How many external services the registry can hold.
pub const MAXDRIVERS: usize = 100;

/// Index of the earliest entry with the given identifier, if any.
pub open spec fn find_index(entries: Seq<(u32, KernelDriver)>, driver_num: u32) -> Option<int>
    decreases entries.len(),
{
    if entries.len() == 0 {
        None
    } else if entries[0].0 == driver_num {
        Some(0)
    } else {
        match find_index(entries.skip(1), driver_num) {
            Some(i) => Some(i + 1),
            None => None,
        }
    }
}

/// Registry of external services; see the module documentation.
pub struct ExternalDriver {
    external_drivers: Vec<(u32, KernelDriver)>,
}

impl ExternalDriver {
    /// The registered pairs, in registration order.
    pub closed spec fn entries(&self) -> Seq<(u32, KernelDriver)> {
        self.external_drivers@
    }

    /// The registry never outgrows its capacity.
    pub closed spec fn wf(&self) -> bool {
        self.external_drivers@.len() <= MAXDRIVERS
    }

    /// An empty registry.
    pub fn new() -> (r: ExternalDriver)
        ensures
            r.wf(),
            r.entries() == Seq::<(u32, KernelDriver)>::empty(),
    {
        ExternalDriver { external_drivers: Vec::new() }
    }

    /// Add a service under an identifier; ignored once the registry is
    /// full.
    pub fn add_driver(&mut self, driver_num: u32, driver: KernelDriver)
        requires
            old(self).wf(),
        ensures
            final(self).wf(),
            old(self).entries().len() < MAXDRIVERS ==> final(self).entries() == old(
                self,
            ).entries().push((driver_num, driver)),
            old(self).entries().len() >= MAXDRIVERS ==> final(self).entries() == old(
                self,
            ).entries(),
    {
        if self.external_drivers.len() < MAXDRIVERS {
            self.external_drivers.push((driver_num, driver));
        }
    }

    /// The service registered earliest under the identifier, if any.
    pub fn get_driver(&self, driver_num: u32) -> (r: Option<&KernelDriver>)
        ensures
            match r {
                Some(d) => lookup(self.entries(), driver_num) == Some(*d),
                None => lookup(self.entries(), driver_num) is None,
            },
    {
        let n = self.external_drivers.len();
        let mut i: usize = 0;
        proof {
            assert(self.entries().skip(0) =~= self.entries());
        }
        while i < n
            invariant
                i <= n,
                n == self.entries().len(),
                lookup(self.entries(), driver_num) == lookup(
                    self.entries().skip(i as int),
                    driver_num,
                ),
            decreases n - i,
        {
            if self.external_drivers[i].0 == driver_num {
                proof {
                    reveal_with_fuel(lookup, 2);
                    assert(self.entries().skip(i as int)[0] == self.entries()[i as int]);
                }
                return Some(&self.external_drivers[i].1);
            }
            proof {
                reveal_with_fuel(lookup, 2);
                assert(self.entries().skip(i as int)[0] == self.entries()[i as int]);
                assert(self.entries().skip(i as int).skip(1) =~= self.entries().skip(i + 1));
            }
            i = i + 1;
        }
        proof {
            assert(self.entries().skip(n as int) =~= Seq::<(u32, KernelDriver)>::empty());
        }
        None
    }

    /// The identifier itself when some service is registered under it,
    /// `0` otherwise.
    pub fn find_driver(&self, driver_num: u32) -> (r: u32)
        ensures
            lookup(self.entries(), driver_num) is Some ==> r == driver_num,
            lookup(self.entries(), driver_num) is None ==> r == 0,
    {
        match self.get_driver(driver_num) {
            Some(_) => driver_num,
            None => 0,
        }
    }

    /// Drop the earliest entry registered under the identifier, if any.
    pub fn remove_driver(&mut self, driver_num: u32)
        requires
            old(self).wf(),
        ensures
            final(self).wf(),
            match find_index(old(self).entries(), driver_num) {
                Some(i) => final(self).entries() == old(self).entries().remove(i),
                None => final(self).entries() == old(self).entries(),
            },
    {
        let n = self.external_drivers.len();
        let mut i: usize = 0;
        proof {
            assert(self.entries().skip(0) =~= self.entries());
        }
        while i < n
            invariant
                i <= n,
                self.entries() == old(self).entries(),
                self.wf(),
                n == self.entries().len(),
                find_index(self.entries(), driver_num) == match find_index(
                    self.entries().skip(i as int),
                    driver_num,
                ) {
                    Some(k) => Some(k + i),
                    None => None::<int>,
                },
            decreases n - i,
        {
            if self.external_drivers[i].0 == driver_num {
                proof {
                    reveal_with_fuel(find_index, 2);
                    assert(self.entries().skip(i as int)[0] == self.entries()[i as int]);
                    assert(find_index(self.entries(), driver_num) == Some(i as int));
                }
                self.external_drivers.remove(i);
                return ;
            }
            proof {
                reveal_with_fuel(find_index, 2);
                assert(self.entries().skip(i as int)[0] == self.entries()[i as int]);
                assert(self.entries().skip(i as int).skip(1) =~= self.entries().skip(i + 1));
            }
            i = i + 1;
        }
        proof {
            assert(self.entries().skip(n as int) =~= Seq::<(u32, KernelDriver)>::empty());
        }
    }

    /// Answer a command request with the meaning-of-life demonstration
    /// answers, as the life service does.
    pub fn command(&self, command_num: u32, data: u32, _arg1: u32, _process: ProcessId) -> (r:
        CommandReturn)
        ensures
            r == crate::drivers::life_command(command_num, data),
    {
        match command_num {
            0 => CommandReturn::success_u32(LIFE),
            1 => {
                if data != LIFE {
                    CommandReturn::failure(ErrorCode::Inval)
                } else {
                    CommandReturn::success()
                }
            },
            _ => CommandReturn::failure(ErrorCode::Nosupport),
        }
    }
}

} // verus!
