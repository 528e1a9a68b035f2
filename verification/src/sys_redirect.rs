//! Interception point for syscalls redirected from another system.
//!
//! `SysRedirect` holds the short list of driver identifiers whose requests
//! may be redirected through it, and answers the same demonstration
//! commands as the Mary service so that a redirected application keeps
//! functioning while the interception sits in the middle.

use vstd::prelude::*;

use crate::syscall::CommandReturn;
use crate::syscall::ErrorCode;
use crate::syscall::ProcessId;
use crate::drivers::MARY_AGE;
use crate::drivers::mary_command;

verus! {

/// How many redirected driver identifiers the list can hold.
pub const MAX_DRIVERS: usize = 2;

/// Marker value for a list slot that names no driver yet: the lowest
/// identifier with the external bit set.
pub const UNASSIGNED_DRIVER: u32 = 0x8000_0000;

/// Redirection service; see the module documentation.
pub struct SysRedirect {
    drivers_list: Vec<u32>,
}

impl SysRedirect {
    /// The list of redirected driver identifiers.
    pub closed spec fn drivers(&self) -> Seq<u32> {
        self.drivers_list@
    }

    /// The list always holds exactly [`MAX_DRIVERS`] slots.
    pub closed spec fn wf(&self) -> bool {
        self.drivers_list@.len() == MAX_DRIVERS
    }

    /// A redirection service whose slots are all unassigned.
    pub fn new() -> (r: SysRedirect)
        ensures
            r.wf(),
            forall|i: int| 0 <= i < MAX_DRIVERS ==> r.drivers()[i] == UNASSIGNED_DRIVER,
    {
        let mut drivers_list: Vec<u32> = Vec::new();
        let mut i: usize = 0;
        while i < MAX_DRIVERS
            invariant
                i <= MAX_DRIVERS,
                drivers_list@.len() == i,
                forall|j: int| 0 <= j < i ==> drivers_list@[j] == UNASSIGNED_DRIVER,
            decreases MAX_DRIVERS - i,
        {
            drivers_list.push(UNASSIGNED_DRIVER);
            i = i + 1;
        }
        SysRedirect { drivers_list }
    }

    /// True iff the redirected syscall's driver identifier stands in the
    /// list.
    pub fn validate_sys(&self, redirected_sys_num: u32) -> (r: bool)
        ensures
            r == self.drivers().contains(redirected_sys_num),
    {
        let mut i: usize = 0;
        while i < self.drivers_list.len()
            invariant
                i <= self.drivers_list@.len(),
                forall|j: int| 0 <= j < i ==> self.drivers_list@[j] != redirected_sys_num,
            decreases self.drivers_list@.len() - i,
        {
            if self.drivers_list[i] == redirected_sys_num {
                proof {
                    assert(self.drivers()[i as int] == redirected_sys_num);
                }
                return true;
            }
            i = i + 1;
        }
        proof {
            assert(forall|j: int|
                0 <= j < self.drivers().len() ==> self.drivers()[j] != redirected_sys_num);
        }
        false
    }

    /// Answer a command request with the Mary demonstration answers; see
    /// [`mary_command`].
    pub fn command(&self, command_num: u32, data: u32, _arg1: u32, _process: ProcessId) -> (r:
        CommandReturn)
        ensures
            r == mary_command(command_num, data),
    {
        match command_num {
            0 => CommandReturn::success_u32(MARY_AGE),
            1 => {
                if data != MARY_AGE {
                    CommandReturn::failure(ErrorCode::Inval)
                } else {
                    CommandReturn::success()
                }
            },
            _ => CommandReturn::failure(ErrorCode::Nosupport),
        }
    }
}

} // verus!
