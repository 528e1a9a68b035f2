//! Per-process record of execution state across a suspension.
//!
//! While a process is suspended, everything needed to resume it lives in
//! its [`StoredProcessState`]: the 31 general-purpose registers (the zero
//! register is not stored), the interrupted program counter, and the trap
//! metadata. The record is valid only while the process is not executing:
//! the trap dispatcher overwrites it on every process-to-kernel trap, and
//! the resume path consumes it on every kernel-to-process switch.
//!
//! The stored registers stand in architectural order: slot `i` holds
//! register `x(i+1)`, so slot 1 is the process stack pointer and slots
//! 9 to 16 are the argument registers `a0` to `a7`.

use vstd::prelude::*;

use crate::syscall::CommandReturn;
use crate::syscall::Syscall;
use crate::syscall::syscall_return_payload;
use crate::syscall::syscall_return_variant;

verus! {

/// How many general-purpose registers the record stores.
pub const STORED_REGS: usize = 31;

/// Stored slot of the process stack pointer (`x2`).
pub const STORED_SP: usize = 1;

/// Stored slot of argument register `a0` (`x10`).
pub const STORED_A0: usize = 9;

/// Stored slot of argument register `a1` (`x11`).
pub const STORED_A1: usize = 10;

/// Stored slot of argument register `a2` (`x12`).
pub const STORED_A2: usize = 11;

/// Stored slot of argument register `a3` (`x13`).
pub const STORED_A3: usize = 12;

/// The per-process record; see the module documentation.
pub struct StoredProcessState {
    /// Saved general-purpose registers; slot `i` holds `x(i+1)`.
    pub regs: Vec<u32>,
    /// Program counter at the moment of the trap.
    pub pc: u32,
    /// Trap cause: sign bit set for an interrupt, reason code below.
    pub mcause: u32,
    /// Faulting address or value of the trap.
    pub mtval: u32,
}

/// How a command's result lands in the record: the return-variant
/// identifier goes to `a0`, the payload to `a1`, and nothing else moves.
pub open spec fn returned_state(
    pre: StoredProcessState,
    post: StoredProcessState,
    ret: CommandReturn,
) -> bool {
    &&& post.regs@ == pre.regs@.update(STORED_A0 as int, syscall_return_variant(ret)).update(
        STORED_A1 as int,
        syscall_return_payload(ret),
    )
    &&& post.pc == pre.pc
    &&& post.mcause == pre.mcause
    &&& post.mtval == pre.mtval
}

/// The command request spelled by the record's argument registers:
/// driver number in `a0`, subdriver number in `a1`, arguments in `a2` and
/// `a3`.
pub open spec fn stored_command(s: StoredProcessState) -> Syscall {
    Syscall::Command {
        driver_number: s.regs@[STORED_A0 as int],
        subdriver_number: s.regs@[STORED_A1 as int],
        arg0: s.regs@[STORED_A2 as int],
        arg1: s.regs@[STORED_A3 as int],
    }
}

impl StoredProcessState {
    /// The record always holds one slot per stored register.
    pub open spec fn wf(&self) -> bool {
        self.regs@.len() == STORED_REGS
    }

    /// A zeroed record, as the process loader allocates it once per
    /// process.
    pub fn new() -> (r: StoredProcessState)
        ensures
            r.wf(),
            forall|i: int| 0 <= i < STORED_REGS ==> r.regs@[i] == 0,
            r.pc == 0,
            r.mcause == 0,
            r.mtval == 0,
    {
        let mut regs: Vec<u32> = Vec::new();
        let mut i: usize = 0;
        while i < STORED_REGS
            invariant
                i <= STORED_REGS,
                regs@.len() == i,
                forall|j: int| 0 <= j < i ==> regs@[j] == 0,
            decreases STORED_REGS - i,
        {
            regs.push(0);
            i = i + 1;
        }
        StoredProcessState { regs, pc: 0, mcause: 0, mtval: 0 }
    }

    /// Read the suspended process's pending command request from its
    /// argument registers.
    pub fn command_syscall(&self) -> (r: Syscall)
        requires
            self.wf(),
        ensures
            r == stored_command(*self),
    {
        Syscall::Command {
            driver_number: self.regs[STORED_A0],
            subdriver_number: self.regs[STORED_A1],
            arg0: self.regs[STORED_A2],
            arg1: self.regs[STORED_A3],
        }
    }

    /// Write a command's result into the record's return-value registers,
    /// to be observed by the process once it resumes.
    pub fn write_syscall_return(&mut self, ret: CommandReturn)
        requires
            old(self).wf(),
        ensures
            final(self).wf(),
            returned_state(*old(self), *final(self), ret),
    {
        let (variant, payload) = crate::syscall::encode_syscall_return(ret);
        self.regs.set(STORED_A0, variant);
        self.regs.set(STORED_A1, payload);
    }
}

} // verus!
