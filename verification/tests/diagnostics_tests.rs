use kernel_core::diagnostics::decode_mcause;
use kernel_core::diagnostics::hex_u32;
use kernel_core::diagnostics::print_mcause;
use kernel_core::diagnostics::print_riscv_state;
use kernel_core::diagnostics::CsrSnapshot;
use kernel_core::diagnostics::Exception;
use kernel_core::diagnostics::Interrupt;
use kernel_core::diagnostics::Trap;
use kernel_core::syscall::CommandReturn;
use kernel_core::syscall::ErrorCode;
use kernel_core::syscall::encode_syscall_return;

#[test]
fn decode_distinguishes_interrupts_and_exceptions() {
    assert_eq!(
        decode_mcause(0x8000_0007),
        Trap::Interrupt(Interrupt::MachineTimer)
    );
    assert_eq!(
        decode_mcause(0x8000_000B),
        Trap::Interrupt(Interrupt::MachineExternal)
    );
    assert_eq!(decode_mcause(8), Trap::Exception(Exception::UserEnvCall));
    assert_eq!(decode_mcause(2), Trap::Exception(Exception::IllegalInstruction));
    assert_eq!(decode_mcause(10), Trap::Exception(Exception::Unknown));
    assert_eq!(
        decode_mcause(0x8000_000A),
        Trap::Interrupt(Interrupt::Unknown)
    );
}

#[test]
fn mcause_names_match_the_architecture() {
    assert_eq!(
        print_mcause(Trap::Interrupt(Interrupt::MachineSoft)),
        "Machine software interrupt"
    );
    assert_eq!(
        print_mcause(Trap::Exception(Exception::UserEnvCall)),
        "Environment call from U-mode"
    );
    assert_eq!(
        print_mcause(Trap::Exception(Exception::StorePageFault)),
        "Store/AMO page fault"
    );
    assert_eq!(print_mcause(Trap::Exception(Exception::Unknown)), "Reserved");
    assert_eq!(
        print_mcause(Trap::Interrupt(Interrupt::Unknown)),
        "Reserved/Unknown"
    );
}

#[test]
fn hex_renders_eight_digits() {
    assert_eq!(hex_u32(0), "0x00000000");
    assert_eq!(hex_u32(0xDEAD_BEEF), "0xDEADBEEF");
    assert_eq!(hex_u32(0x0000_002A), "0x0000002A");
    assert_eq!(hex_u32(u32::MAX), "0xFFFFFFFF");
}

#[test]
fn state_dump_names_cause_and_registers() {
    let csrs = CsrSnapshot {
        mcause: 0x8000_0007,
        mtval: 0x0000_0044,
        mepc: 0x0000_0100,
        mstatus: 0x0000_1880,
        mtvec: 0x0000_4320,
        mie: 0x0000_0888,
        mip: 0x0000_0080,
    };
    let dump = print_riscv_state(&csrs);
    assert!(dump.contains("---| RISC-V Machine State |---"));
    assert!(dump.contains("Last cause (mcause): Machine timer interrupt"));
    assert!(dump.contains("Last value (mtval):  0x00000044"));
    assert!(dump.contains(" mepc:    0x00000100"));
    assert!(dump.contains(" mstatus: 0x00001880"));
    assert!(dump.contains(" mtvec:   0x00004320"));
    assert!(dump.contains(" mie:     0x00000888"));
    assert!(dump.contains(" mip:     0x00000080"));
}

#[test]
fn syscall_return_encoding_words() {
    assert_eq!(encode_syscall_return(CommandReturn::Success), (128, 0));
    assert_eq!(
        encode_syscall_return(CommandReturn::SuccessU32(7)),
        (129, 7)
    );
    assert_eq!(
        encode_syscall_return(CommandReturn::Failure(ErrorCode::Busy)),
        (0, 2)
    );
}

#[test]
fn error_codes_keep_their_words() {
    assert_eq!(ErrorCode::Fail.as_word(), 1);
    assert_eq!(ErrorCode::Busy.as_word(), 2);
    assert_eq!(ErrorCode::Already.as_word(), 3);
    assert_eq!(ErrorCode::Inval.as_word(), 6);
    assert_eq!(ErrorCode::Size.as_word(), 7);
    assert_eq!(ErrorCode::Nosupport.as_word(), 10);
    assert_eq!(ErrorCode::Nodevice.as_word(), 11);
}
