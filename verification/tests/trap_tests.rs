use kernel_core::drivers::EchoDriver;
use kernel_core::process_state::StoredProcessState;
use kernel_core::router::DriverRegistry;
use kernel_core::router::KernelDriver;
use kernel_core::syscall::ProcessId;
use kernel_core::syscall::Syscall;
use kernel_core::syscall::CommandReturn;
use kernel_core::syscall::SYSCALL_RETURN_SUCCESS_U32;
use kernel_core::trap::configure_trap_handler;
use kernel_core::trap::resume_process;
use kernel_core::trap::start_trap;
use kernel_core::trap::KernelStackFrame;
use kernel_core::trap::MachineState;
use kernel_core::trap::PermissionMode;
use kernel_core::trap::StackBounds;
use kernel_core::trap::TrapOutcome;
use kernel_core::trap::TrapVectors;

const KERNEL_SP: u32 = 0x2000_0400;
const RETURN_TO_KERNEL: u32 = 0x0000_ABC0;

fn machine_in_process(mcause: u32) -> MachineState {
    // A register file with a distinct value in every register, as the
    // process holds it at the moment of the trap.
    let mut xregs = vec![0u32];
    for i in 1..32u32 {
        xregs.push(0x1000 + i);
    }
    MachineState {
        xregs,
        mscratch: KERNEL_SP,
        mepc: 0x0000_0100,
        mcause,
        mtval: 0x0000_0044,
        mstatus: 0x0000_0080,
    }
}

fn machine_in_kernel(sp: u32) -> MachineState {
    let mut xregs = vec![0u32];
    for i in 1..32u32 {
        xregs.push(0x2000 + i);
    }
    xregs[2] = sp;
    MachineState {
        xregs,
        mscratch: 0,
        mepc: 0x0000_0200,
        mcause: 0x8000_0007,
        mtval: 0,
        mstatus: 0x0000_1880,
    }
}

fn stack() -> StackBounds {
    StackBounds {
        bottom: 0x2000_0000,
        top: 0x2000_0800,
    }
}

#[test]
fn process_trap_saves_every_register() {
    // A synchronous trap (syscall) taken while the Scratch Flag was
    // nonzero: every stored register slot must equal the value its
    // register held at the trap, the stack pointer recovered from the
    // flag hand-off included.
    let mut machine = machine_in_process(8);
    let saved_regs: Vec<u32> = (1..32u32).map(|i| 0x1000 + i).collect();
    let mut frame = KernelStackFrame {
        scratch: 0,
        return_to_kernel: RETURN_TO_KERNEL,
    };
    let mut state = StoredProcessState::new();
    let outcome = start_trap(&mut machine, &mut frame, &mut state, &stack());
    assert_eq!(
        outcome,
        TrapOutcome::TrapFromProcess {
            disable_interrupt: None
        }
    );
    for i in 0..31 {
        assert_eq!(state.regs[i], saved_regs[i]);
    }
    assert_eq!(state.pc, 0x0000_0100);
    assert_eq!(state.mcause, 8);
    assert_eq!(state.mtval, 0x0000_0044);
    // The kernel is running again: flag clear, kernel stack back, the
    // return from trap lands in the context-switch code, in machine mode.
    assert_eq!(machine.mscratch, 0);
    assert_eq!(machine.xregs[2], KERNEL_SP);
    assert_eq!(machine.mepc, RETURN_TO_KERNEL);
    assert_eq!((machine.mstatus >> 11) & 3, 3);
}

#[test]
fn process_trap_on_interrupt_reports_cause_to_disable() {
    let mut machine = machine_in_process(0x8000_000B);
    let mut frame = KernelStackFrame {
        scratch: 0,
        return_to_kernel: RETURN_TO_KERNEL,
    };
    let mut state = StoredProcessState::new();
    let outcome = start_trap(&mut machine, &mut frame, &mut state, &stack());
    assert_eq!(
        outcome,
        TrapOutcome::TrapFromProcess {
            disable_interrupt: Some(0x8000_000B)
        }
    );
    assert_eq!(state.mcause, 0x8000_000B);
    // The cause rides to the chip's disable path in a0.
    assert_eq!(machine.xregs[10], 0x8000_000B);
}

#[test]
fn kernel_trap_preserves_registers() {
    let mut machine = machine_in_kernel(0x2000_0400);
    let before = machine.xregs.clone();
    let mut frame = KernelStackFrame {
        scratch: 9,
        return_to_kernel: RETURN_TO_KERNEL,
    };
    let mut state = StoredProcessState::new();
    let outcome = start_trap(&mut machine, &mut frame, &mut state, &stack());
    assert_eq!(outcome, TrapOutcome::TrapFromKernel { stack_reset: false });
    assert_eq!(machine.xregs, before);
    assert_eq!(machine.mscratch, 0);
    // The return from trap resumes at the interrupted instruction.
    assert_eq!(machine.mepc, 0x0000_0200);
}

#[test]
fn kernel_trap_with_exhausted_stack_resets_stack_pointer() {
    // Fault injection: the kernel stack pointer sits at the stack-bottom
    // bound when the trap arrives. The dispatcher must re-point it at the
    // top of the stack region before anything is pushed.
    let mut machine = machine_in_kernel(0x2000_0000);
    let mut frame = KernelStackFrame {
        scratch: 0,
        return_to_kernel: RETURN_TO_KERNEL,
    };
    let mut state = StoredProcessState::new();
    let outcome = start_trap(&mut machine, &mut frame, &mut state, &stack());
    assert_eq!(outcome, TrapOutcome::TrapFromKernel { stack_reset: true });
    assert_eq!(machine.xregs[2], 0x2000_0800);
}

#[test]
fn kernel_trap_just_above_bound_keeps_stack_pointer() {
    let mut machine = machine_in_kernel(0x2000_0004);
    let mut frame = KernelStackFrame {
        scratch: 0,
        return_to_kernel: RETURN_TO_KERNEL,
    };
    let mut state = StoredProcessState::new();
    let outcome = start_trap(&mut machine, &mut frame, &mut state, &stack());
    assert_eq!(outcome, TrapOutcome::TrapFromKernel { stack_reset: false });
    assert_eq!(machine.xregs[2], 0x2000_0004);
}

#[test]
fn echo_command_result_reaches_the_process() {
    // End-to-end: a process issues a command to a registered echo service
    // with (subdriver=0, arg0=7, arg1=0); after trap handling, routing,
    // write-back and resumption, the process observes 7 in the result
    // register of the return convention (a1), with a0 naming a
    // success-with-value.
    let mut machine = machine_in_process(8);
    machine.xregs[10] = 42; // a0: driver number
    machine.xregs[11] = 0; // a1: subdriver number
    machine.xregs[12] = 7; // a2: arg0
    machine.xregs[13] = 0; // a3: arg1
    let mut frame = KernelStackFrame {
        scratch: 0,
        return_to_kernel: RETURN_TO_KERNEL,
    };
    let mut state = StoredProcessState::new();
    start_trap(&mut machine, &mut frame, &mut state, &stack());

    let mut registry = DriverRegistry::new();
    registry.register(42, KernelDriver::Echo(EchoDriver::new()));
    let Syscall::Command {
        driver_number,
        subdriver_number,
        arg0,
        arg1,
    } = state.command_syscall();
    assert_eq!(
        (driver_number, subdriver_number, arg0, arg1),
        (42, 0, 7, 0)
    );
    let result = registry.dispatch(
        driver_number,
        subdriver_number,
        arg0,
        arg1,
        ProcessId::new(1, 0),
    );
    assert_eq!(result, CommandReturn::SuccessU32(7));
    state.write_syscall_return(result);
    resume_process(&mut machine, &state, KERNEL_SP);
    assert_eq!(machine.xregs[10], SYSCALL_RETURN_SUCCESS_U32);
    assert_eq!(machine.xregs[11], 7);
    assert_eq!(machine.mepc, 0x0000_0100);
    // Every other register is back exactly as the process held it at the
    // trap — the argument registers a2 and a3 included.
    assert_eq!(machine.xregs[12], 7);
    assert_eq!(machine.xregs[13], 0);
    for i in 1..32 {
        if !(10..=13).contains(&i) {
            assert_eq!(machine.xregs[i], 0x1000 + i as u32);
        }
    }
}

#[test]
fn resume_loads_record_and_hands_flag_the_kernel_stack() {
    let mut state = StoredProcessState::new();
    for i in 0..31 {
        state.regs[i] = 0x3000 + i as u32;
    }
    state.pc = 0x0000_0777;
    let mut machine = machine_in_kernel(KERNEL_SP);
    resume_process(&mut machine, &state, KERNEL_SP);
    for i in 1..32 {
        assert_eq!(machine.xregs[i], 0x3000 + (i - 1) as u32);
    }
    assert_eq!(machine.mepc, 0x0000_0777);
    assert_eq!(machine.mscratch, KERNEL_SP);
    assert_eq!((machine.mstatus >> 11) & 3, 0);
}

#[test]
fn configure_trap_handler_installs_vector() {
    let mut vectors = TrapVectors {
        mtvec: 0,
        stvec: 0,
        utvec: 0,
    };
    configure_trap_handler(&mut vectors, PermissionMode::Machine, 0x0000_4321);
    assert_eq!(vectors.mtvec, 0x0000_4320);
    assert_eq!(vectors.stvec, 0);
    configure_trap_handler(&mut vectors, PermissionMode::Supervisor, 0x0000_8004);
    assert_eq!(vectors.stvec, 0x0000_8004);
    configure_trap_handler(&mut vectors, PermissionMode::User, 0x0000_8008);
    assert_eq!(vectors.utvec, 0x0000_8008);
    configure_trap_handler(&mut vectors, PermissionMode::Reserved, 0x0000_9999);
    assert_eq!(vectors.mtvec, 0x0000_4320);
    assert_eq!(vectors.stvec, 0x0000_8004);
    assert_eq!(vectors.utvec, 0x0000_8008);
}

#[test]
fn permission_mode_bits_encode_privilege_levels() {
    assert_eq!(PermissionMode::User.bits(), 0);
    assert_eq!(PermissionMode::Supervisor.bits(), 1);
    assert_eq!(PermissionMode::Reserved.bits(), 2);
    assert_eq!(PermissionMode::Machine.bits(), 3);
}
