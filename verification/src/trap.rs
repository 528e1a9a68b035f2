//! Trap dispatcher: the privileged entry and exit path of the kernel.
//!
//! Hardware calls one routine on every interrupt, exception and syscall.
//! The routine must first learn where the trap came from, and it may not
//! touch a single register to find out — every register still holds live
//! state. The answer lives in the Scratch Flag (the `mscratch` register):
//! zero while the kernel runs, the kernel's stack pointer while a process
//! runs. The entry sequence atomically exchanges the flag with the stack
//! pointer register and looks at what it received: zero means the trap
//! came from the kernel, anything else is the kernel stack pointer and the
//! trap came from a process.
//!
//! A trap from the kernel keeps running on the kernel stack — after a
//! check that the stack has not overflowed; an overflow re-points the
//! stack pointer at the top of the stack region so the fatal-error path
//! has a stack to run on, and is otherwise fatal. A trap from a process
//! checkpoints every register into the process's
//! [`StoredProcessState`](crate::process_state::StoredProcessState) record
//! and returns into the kernel's context-switch code in machine mode.
//!
//! This module is the dispatcher as a verified state machine over a
//! word-level model of the machine ([`MachineState`]); the few lines of
//! entry assembly a board carries are a transcription of
//! [`start_trap`], whose contract states the register-preservation and
//! stack-check guarantees.

use vstd::prelude::*;

use crate::process_state::STORED_REGS;
use crate::process_state::STORED_SP;
use crate::process_state::StoredProcessState;
use crate::process_state::returned_state;
use crate::syscall::CommandReturn;
use crate::syscall::SYSCALL_RETURN_SUCCESS_U32;

verus! {

/// Architectural number of the stack pointer register (`sp`, `x2`).
pub const REG_SP: usize = 2;

/// Architectural number of temporary register `t0` (`x5`).
pub const REG_T0: usize = 5;

/// Architectural number of temporary register `t1` (`x6`).
pub const REG_T1: usize = 6;

/// Architectural number of the frame pointer register (`s0`, `x8`).
pub const REG_S0: usize = 8;

/// Architectural number of argument register `a0` (`x10`).
pub const REG_A0: usize = 10;

/// Architectural number of argument register `a1` (`x11`).
pub const REG_A1: usize = 11;

/// The two machine-mode bits of the `mstatus` privilege field (MPP),
/// already in place: forcing them on keeps execution in machine mode
/// across a return from trap.
pub const MSTATUS_MPP_MACHINE: u32 = 0x1800;

/// Sign bit of the trap cause: set for an asynchronous interrupt, clear
/// for a synchronous exception or syscall.
pub const MCAUSE_INTERRUPT_BIT: u32 = 0x8000_0000;

/// Word-level model of the processor at a trap boundary: the register
/// file and the trap-handling control and status registers.
pub struct MachineState {
    /// The register file, indexed by architectural number; `x0` is wired
    /// to zero.
    pub xregs: Vec<u32>,
    /// The Scratch Flag: zero while the kernel runs, the kernel's stack
    /// pointer while a process runs.
    pub mscratch: u32,
    /// Program counter at the moment of the trap; a return from trap
    /// resumes there.
    pub mepc: u32,
    /// Trap cause: sign bit set for an interrupt, reason code below.
    pub mcause: u32,
    /// Faulting address or value of the trap.
    pub mtval: u32,
    /// Processor status register; its MPP field holds the privilege mode
    /// a return from trap drops to.
    pub mstatus: u32,
}

impl MachineState {
    /// One slot per architectural register, and `x0` reads as zero.
    pub open spec fn wf(&self) -> bool {
        self.xregs@.len() == 32 && self.xregs@[0] == 0
    }
}

/// The Scratch Flag reads as "kernel code is executing".
pub open spec fn kernel_running(m: MachineState) -> bool {
    m.mscratch == 0
}

/// The Scratch Flag reads as "a process is executing": it holds the
/// kernel's stack pointer, to be recovered at the next trap.
pub open spec fn process_running(m: MachineState) -> bool {
    m.mscratch != 0
}

/// The kernel stack region: a trap from the kernel with the stack pointer
/// at or below `bottom` is a stack overflow, and the pointer is re-pointed
/// at `top`.
pub struct StackBounds {
    /// First address below the stack region.
    pub bottom: u32,
    /// Where the stack begins (and grows downward from).
    pub top: u32,
}

/// The two words the kernel parks on its stack before dispatching a
/// process, at offsets the trap dispatcher knows.
pub struct KernelStackFrame {
    /// Scratch slot where the dispatcher parks `s0` while it fetches the
    /// record's location.
    pub scratch: u32,
    /// Address of the kernel's context-switch resumption point; a trap
    /// from a process returns there.
    pub return_to_kernel: u32,
}

/// What the trap dispatcher decided, and what the kernel must still do.
#[derive(Clone, Copy, PartialEq, Eq, Debug)]
pub enum TrapOutcome {
    /// The trap interrupted the kernel itself: run the kernel-internal
    /// trap handler (acknowledge and disable the firing interrupt source)
    /// and return to the interrupted instruction. `stack_reset` reports
    /// that the kernel stack had overflowed and was re-pointed — fatal,
    /// but with a stack to report on.
    TrapFromKernel { stack_reset: bool },
    /// The trap interrupted a process, whose state is now checkpointed;
    /// execution continues at the context-switch resumption point. When
    /// the cause was an asynchronous interrupt, it must be disabled
    /// before processes run again — `disable_interrupt` carries the cause
    /// to hand to the chip's interrupt-disable path.
    TrapFromProcess { disable_interrupt: Option<u32> },
}

/// The checkpoint the dispatcher writes: every stored slot holds the value
/// its register had at the moment of the trap. The process stack pointer
/// travels through the Scratch Flag hand-off and lands in its slot like
/// every other register; the program counter and the trap metadata come
/// from the trap registers.
pub open spec fn process_trap_saves_state(pre: MachineState, s: StoredProcessState) -> bool {
    &&& s.regs@.len() == STORED_REGS
    &&& forall|i: int| 0 <= i < STORED_REGS ==> s.regs@[i] == pre.xregs@[i + 1]
    &&& s.pc == pre.mepc
    &&& s.mcause == pre.mcause
    &&& s.mtval == pre.mtval
}

/// The MPP field of `mstatus` names machine mode.
pub open spec fn mpp_is_machine(mstatus: u32) -> bool {
    (mstatus >> 11) & 3 == 3
}

/// How a resumed register file relates to the record it was loaded from:
/// every stored slot is back in its register, and execution will continue
/// at the stored program counter.
pub open spec fn resumed_from(s: StoredProcessState, m: MachineState) -> bool {
    &&& m.xregs@.len() == 32
    &&& forall|i: int| 1 <= i < 32 ==> m.xregs@[i] == s.regs@[i - 1]
    &&& m.mepc == s.pc
}

/// Forcing the MPP bits on puts machine mode in the field.
proof fn lemma_mpp_forced(mstatus: u32)
    by (bit_vector)
    ensures
        ((mstatus | 0x1800) >> 11) & 3 == 3,
{
}

/// The trap dispatcher: entry point of every interrupt, exception and
/// syscall.
///
/// `machine` is the processor at the moment the trap is taken: every
/// register still holds the interrupted context's value, and the trap
/// registers hold cause, faulting value and interrupted program counter.
/// `frame` is the kernel stack frame parked by the context-switch code and
/// `state` the current process's record; both are read only on the
/// from-process path. `stack` bounds the kernel stack region for the
/// overflow check on the from-kernel path.
///
/// From the kernel (Scratch Flag zero): registers are preserved — except
/// that a stack pointer at or below the stack bottom is re-pointed at the
/// top before anything is pushed — and the return from trap resumes at the
/// interrupted instruction.
///
/// From a process (Scratch Flag nonzero): every general-purpose register
/// is checkpointed into `state` exactly as the process held it, the
/// Scratch Flag is cleared, the privilege field is forced to machine mode,
/// and the return from trap lands at the kernel's context-switch
/// resumption point with the kernel stack pointer restored. Temporaries
/// `t0`, `t1` and `s0` are the dispatcher's working registers afterward
/// (`s0` held the record's location, which this word-level model does not
/// carry and leaves zero), and `a0` carries the cause when an interrupt
/// must be disabled.
pub fn start_trap(
    machine: &mut MachineState,
    frame: &mut KernelStackFrame,
    state: &mut StoredProcessState,
    stack: &StackBounds,
) -> (outcome: TrapOutcome)
    requires
        old(machine).wf(),
        old(state).wf(),
    ensures
        final(machine).wf(),
        final(state).wf(),
        kernel_running(*final(machine)),
        final(machine).mscratch == 0,
        final(machine).mcause == old(machine).mcause,
        final(machine).mtval == old(machine).mtval,
        final(frame).return_to_kernel == old(frame).return_to_kernel,
        kernel_running(*old(machine)) ==> {
            &&& *final(state) == *old(state)
            &&& *final(frame) == *old(frame)
            &&& final(machine).mepc == old(machine).mepc
            &&& final(machine).mstatus == old(machine).mstatus
            &&& old(machine).xregs@[REG_SP as int] > stack.bottom ==> {
                &&& final(machine).xregs@ == old(machine).xregs@
                &&& outcome == (TrapOutcome::TrapFromKernel { stack_reset: false })
            }
            &&& old(machine).xregs@[REG_SP as int] <= stack.bottom ==> {
                &&& final(machine).xregs@ == old(machine).xregs@.update(
                    REG_SP as int,
                    stack.top,
                )
                &&& outcome == (TrapOutcome::TrapFromKernel { stack_reset: true })
            }
        },
        process_running(*old(machine)) ==> {
            &&& process_trap_saves_state(*old(machine), *final(state))
            &&& final(machine).xregs@[REG_SP as int] == old(machine).mscratch
            &&& final(machine).mepc == old(frame).return_to_kernel
            &&& final(machine).mstatus == old(machine).mstatus | MSTATUS_MPP_MACHINE
            &&& mpp_is_machine(final(machine).mstatus)
            &&& final(frame).scratch == old(machine).xregs@[REG_S0 as int]
            &&& forall|r: int|
                0 <= r < 32 && r != REG_SP && r != REG_T0 && r != REG_T1 && r != REG_S0 && r
                    != REG_A0 ==> final(machine).xregs@[r] == old(machine).xregs@[r]
            &&& old(machine).mcause < MCAUSE_INTERRUPT_BIT ==> final(machine).xregs@[REG_A0 as int]
                == old(machine).xregs@[REG_A0 as int]
            &&& outcome == (TrapOutcome::TrapFromProcess {
                disable_interrupt: if old(machine).mcause >= MCAUSE_INTERRUPT_BIT {
                    Some(old(machine).mcause)
                } else {
                    None
                },
            })
        },
{
    // The exchange handshake: swap the stack pointer register with the
    // Scratch Flag. No other register is touched before the origin is
    // known.
    let orig_sp = machine.xregs[REG_SP];
    let flag = machine.mscratch;
    machine.xregs.set(REG_SP, flag);
    machine.mscratch = orig_sp;
    if flag == 0 {
        // From the kernel. Swap back, so the flag again reads "in kernel"
        // and the stack pointer is restored.
        let sp = machine.mscratch;
        machine.xregs.set(REG_SP, sp);
        machine.mscratch = 0;
        // The stack must be checked before it is used: if the pointer is
        // not above the bottom of the stack region, the kernel stack has
        // overflowed, and the pointer is re-pointed at the top of the
        // region so the fatal-error path has a valid stack to run on.
        let stack_reset = if machine.xregs[REG_SP] <= stack.bottom {
            machine.xregs.set(REG_SP, stack.top);
            true
        } else {
            false
        };
        // The caller-saved registers are pushed, the kernel-internal trap
        // handler runs, the registers are popped: net register effect
        // none, and the return from trap resumes the interrupted
        // instruction since the trap registers were not changed.
        TrapOutcome::TrapFromKernel { stack_reset }
    } else {
        // From a process: the stack pointer register now holds the kernel
        // stack pointer, and the Scratch Flag holds the process's stack
        // pointer until it is checkpointed below.
        //
        // Park s0 in the frame's scratch slot; the dispatcher then uses
        // s0 to reach the record (in this model, the record is `state`
        // itself).
        frame.scratch = machine.xregs[REG_S0];
        // Checkpoint every general-purpose register exactly as the
        // process held it. The process stack pointer is recovered from
        // the Scratch Flag hand-off; everything else still sits in its
        // register.
        let mut i: usize = 0;
        while i < STORED_REGS
            invariant
                old(machine).wf(),
                i <= STORED_REGS,
                machine.xregs@.len() == 32,
                machine.mscratch == old(machine).xregs@[REG_SP as int],
                machine.xregs@[REG_SP as int] == old(machine).mscratch,
                forall|r: int|
                    0 <= r < 32 && r != REG_SP ==> machine.xregs@[r] == old(machine).xregs@[r],
                machine.mepc == old(machine).mepc,
                machine.mcause == old(machine).mcause,
                machine.mtval == old(machine).mtval,
                machine.mstatus == old(machine).mstatus,
                state.regs@.len() == STORED_REGS,
                forall|j: int| 0 <= j < i ==> state.regs@[j] == old(machine).xregs@[j + 1],
            decreases STORED_REGS - i,
        {
            let value = if i == STORED_SP {
                machine.mscratch
            } else {
                machine.xregs[i + 1]
            };
            state.regs.set(i, value);
            i = i + 1;
        }
        // The trap registers complete the record: faulting value, the
        // interrupted program counter, and — read last, since the branch
        // below depends on it — the cause.
        state.mtval = machine.mtval;
        state.pc = machine.mepc;
        state.mcause = machine.mcause;
        let cause = machine.mcause;
        // An asynchronous interrupt must be disabled before processes run
        // again, or it would fire again immediately after resume; the
        // cause rides to the chip's disable path in a0.
        let is_interrupt = cause >= MCAUSE_INTERRUPT_BIT;
        if is_interrupt {
            machine.xregs.set(REG_A0, cause);
        }
        // Return into the kernel's context-switch code: its address goes
        // to the return-from-trap register, the Scratch Flag is cleared —
        // the kernel is about to run — and the privilege field is forced
        // to machine mode so the return from trap does not drop to the
        // process's mode.
        machine.mepc = frame.return_to_kernel;
        machine.mscratch = 0;
        machine.mstatus = machine.mstatus | MSTATUS_MPP_MACHINE;
        proof {
            lemma_mpp_forced(old(machine).mstatus);
        }
        // The dispatcher's working registers as the tail of the entry
        // sequence leaves them: t0 holds the status word it wrote, t1 the
        // privilege mask, s0 held the record's location — a pointer this
        // word-level model does not carry, left zero.
        let status = machine.mstatus;
        machine.xregs.set(REG_T0, status);
        machine.xregs.set(REG_T1, MSTATUS_MPP_MACHINE);
        machine.xregs.set(REG_S0, 0);
        TrapOutcome::TrapFromProcess {
            disable_interrupt: if is_interrupt {
                Some(cause)
            } else {
                None
            },
        }
    }
}

/// The privilege levels of the architecture.
#[derive(Clone, Copy, PartialEq, Eq, Structural, Debug)]
pub enum PermissionMode {
    User,
    Supervisor,
    Reserved,
    Machine,
}

/// The two-bit encoding of a privilege level.
pub open spec fn permission_mode_bits(mode: PermissionMode) -> u32 {
    match mode {
        PermissionMode::User => 0,
        PermissionMode::Supervisor => 1,
        PermissionMode::Reserved => 2,
        PermissionMode::Machine => 3,
    }
}

impl PermissionMode {
    /// The level's two-bit encoding.
    pub fn bits(&self) -> (r: u32)
        ensures
            r == permission_mode_bits(*self),
    {
        match self {
            PermissionMode::User => 0,
            PermissionMode::Supervisor => 1,
            PermissionMode::Reserved => 2,
            PermissionMode::Machine => 3,
        }
    }
}

/// The trap-vector registers, one per privilege level that can take
/// traps.
pub struct TrapVectors {
    pub mtvec: u32,
    pub stvec: u32,
    pub utvec: u32,
}

/// The value installed in a trap-vector register: the handler's address
/// in the upper bits, and the vectoring mode bits cleared for a single
/// direct handler.
pub open spec fn vector_entry(handler_addr: u32) -> u32 {
    (handler_addr >> 2) << 2
}

/// The installed entry is the handler's address with its mode bits
/// cleared.
proof fn lemma_vector_entry_masks(handler_addr: u32)
    by (bit_vector)
    ensures
        (handler_addr >> 2) << 2 == handler_addr & 0xffff_fffc,
{
}

/// Tell the processor where the trap dispatcher lives: install the
/// handler's address in the trap-vector register of the given privilege
/// level, with direct (non-vectored) mode. The reserved level has no
/// vector register and nothing changes.
pub fn configure_trap_handler(vectors: &mut TrapVectors, mode: PermissionMode, handler_addr: u32)
    ensures
        mode is Machine ==> *final(vectors) == (TrapVectors {
            mtvec: vector_entry(handler_addr),
            ..*old(vectors)
        }),
        mode is Supervisor ==> *final(vectors) == (TrapVectors {
            stvec: vector_entry(handler_addr),
            ..*old(vectors)
        }),
        mode is User ==> *final(vectors) == (TrapVectors {
            utvec: vector_entry(handler_addr),
            ..*old(vectors)
        }),
        mode is Reserved ==> *final(vectors) == *old(vectors),
        vector_entry(handler_addr) == handler_addr & 0xffff_fffc,
{
    proof {
        lemma_vector_entry_masks(handler_addr);
    }
    let entry = (handler_addr >> 2) << 2;
    match mode {
        PermissionMode::Machine => {
            vectors.mtvec = entry;
        },
        PermissionMode::Supervisor => {
            vectors.stvec = entry;
        },
        PermissionMode::User => {
            vectors.utvec = entry;
        },
        PermissionMode::Reserved => {},
    }
}

/// The kernel-to-process return path: consume the record and place the
/// process back on the processor.
///
/// Every stored register slot returns to its register, execution will
/// continue at the stored program counter, the privilege field drops to
/// user mode, and the Scratch Flag takes the kernel's stack pointer so the
/// next trap can find it — the flag must be nonzero while a process runs,
/// which is why the kernel stack can never sit at address zero.
pub fn resume_process(machine: &mut MachineState, state: &StoredProcessState, kernel_sp: u32)
    requires
        old(machine).wf(),
        state.wf(),
        kernel_sp != 0,
    ensures
        final(machine).wf(),
        resumed_from(*state, *final(machine)),
        process_running(*final(machine)),
        final(machine).mscratch == kernel_sp,
        final(machine).mstatus == old(machine).mstatus & !MSTATUS_MPP_MACHINE,
        final(machine).mcause == old(machine).mcause,
        final(machine).mtval == old(machine).mtval,
{
    let mut i: usize = 1;
    while i < 32
        invariant
            old(machine).wf(),
            state.wf(),
            1 <= i <= 32,
            machine.xregs@.len() == 32,
            machine.xregs@[0] == 0,
            forall|j: int| 1 <= j < i ==> machine.xregs@[j] == state.regs@[j - 1],
            machine.mscratch == old(machine).mscratch,
            machine.mepc == old(machine).mepc,
            machine.mcause == old(machine).mcause,
            machine.mtval == old(machine).mtval,
            machine.mstatus == old(machine).mstatus,
        decreases 32 - i,
    {
        let value = state.regs[i - 1];
        machine.xregs.set(i, value);
        i = i + 1;
    }
    machine.mepc = state.pc;
    machine.mscratch = kernel_sp;
    machine.mstatus = machine.mstatus & !MSTATUS_MPP_MACHINE;
}

/// A process's registers survive its own syscall: after the dispatcher
/// checkpoints the register file, the kernel answers the command by
/// writing the two return words, and the process resumes, every register
/// except the two return registers holds exactly the value it held at the
/// moment of the trap — the stack pointer included, recovered from the
/// Scratch Flag hand-off — and execution continues at the trapped program
/// counter.
pub proof fn lemma_registers_preserved_across_syscall(
    at_trap: MachineState,
    saved: StoredProcessState,
    answered: StoredProcessState,
    resumed: MachineState,
    ret: CommandReturn,
)
    requires
        at_trap.wf(),
        saved.wf(),
        process_trap_saves_state(at_trap, saved),
        returned_state(saved, answered, ret),
        resumed_from(answered, resumed),
    ensures
        forall|r: int|
            1 <= r < 32 && r != REG_A0 && r != REG_A1 ==> resumed.xregs@[r] == at_trap.xregs@[r],
        resumed.mepc == at_trap.mepc,
{
}

/// A command's answer reaches the process: once the kernel writes a
/// `SuccessU32` result and the process resumes, the return-identifier
/// register `a0` names a success-with-value and the result register `a1`
/// holds the value itself.
pub proof fn lemma_command_result_observed(
    saved: StoredProcessState,
    answered: StoredProcessState,
    resumed: MachineState,
    value: u32,
)
    requires
        saved.wf(),
        returned_state(saved, answered, CommandReturn::SuccessU32(value)),
        resumed_from(answered, resumed),
    ensures
        resumed.xregs@[REG_A0 as int] == SYSCALL_RETURN_SUCCESS_U32,
        resumed.xregs@[REG_A1 as int] == value,
{
}

} // verus!
