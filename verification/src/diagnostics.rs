//! Fault reporting: render trap-cause and status registers as text.
//!
//! When the kernel must report a fault, it reads the trap registers and
//! hands their values here; the rendering itself is pure computation on
//! words. [`decode_mcause`] splits the cause register into interrupt or
//! exception and reason, [`print_mcause`] names the reason, and
//! [`print_riscv_state`] lays out a register dump around those names.

use vstd::prelude::*;
use vstd::string::StringExecFns;

verus! {

/// Reasons of an asynchronous interrupt, by reason code.
#[derive(Clone, Copy, PartialEq, Eq, Structural, Debug)]
pub enum Interrupt {
    UserSoft,
    SupervisorSoft,
    MachineSoft,
    UserTimer,
    SupervisorTimer,
    MachineTimer,
    UserExternal,
    SupervisorExternal,
    MachineExternal,
    Unknown,
}

/// Reasons of a synchronous exception, by reason code.
#[derive(Clone, Copy, PartialEq, Eq, Structural, Debug)]
pub enum Exception {
    InstructionMisaligned,
    InstructionFault,
    IllegalInstruction,
    Breakpoint,
    LoadMisaligned,
    LoadFault,
    StoreMisaligned,
    StoreFault,
    UserEnvCall,
    SupervisorEnvCall,
    MachineEnvCall,
    InstructionPageFault,
    LoadPageFault,
    StorePageFault,
    Unknown,
}

/// A decoded trap cause.
#[derive(Clone, Copy, PartialEq, Eq, Structural, Debug)]
pub enum Trap {
    Interrupt(Interrupt),
    Exception(Exception),
}

/// The interrupt named by a reason code.
pub open spec fn interrupt_of_code(code: u32) -> Interrupt {
    if code == 0 {
        Interrupt::UserSoft
    } else if code == 1 {
        Interrupt::SupervisorSoft
    } else if code == 3 {
        Interrupt::MachineSoft
    } else if code == 4 {
        Interrupt::UserTimer
    } else if code == 5 {
        Interrupt::SupervisorTimer
    } else if code == 7 {
        Interrupt::MachineTimer
    } else if code == 8 {
        Interrupt::UserExternal
    } else if code == 9 {
        Interrupt::SupervisorExternal
    } else if code == 11 {
        Interrupt::MachineExternal
    } else {
        Interrupt::Unknown
    }
}

/// The exception named by a reason code.
pub open spec fn exception_of_code(code: u32) -> Exception {
    if code == 0 {
        Exception::InstructionMisaligned
    } else if code == 1 {
        Exception::InstructionFault
    } else if code == 2 {
        Exception::IllegalInstruction
    } else if code == 3 {
        Exception::Breakpoint
    } else if code == 4 {
        Exception::LoadMisaligned
    } else if code == 5 {
        Exception::LoadFault
    } else if code == 6 {
        Exception::StoreMisaligned
    } else if code == 7 {
        Exception::StoreFault
    } else if code == 8 {
        Exception::UserEnvCall
    } else if code == 9 {
        Exception::SupervisorEnvCall
    } else if code == 11 {
        Exception::MachineEnvCall
    } else if code == 12 {
        Exception::InstructionPageFault
    } else if code == 13 {
        Exception::LoadPageFault
    } else if code == 15 {
        Exception::StorePageFault
    } else {
        Exception::Unknown
    }
}

/// The trap named by a cause register value: the sign bit distinguishes
/// interrupt from exception, the bits below are the reason code.
pub open spec fn trap_of_mcause(mcause: u32) -> Trap {
    if mcause >= 0x8000_0000 {
        Trap::Interrupt(interrupt_of_code((mcause & 0x7fff_ffff) as u32))
    } else {
        Trap::Exception(exception_of_code(mcause))
    }
}

/// Decode a cause register value; see [`trap_of_mcause`].
pub fn decode_mcause(mcause: u32) -> (r: Trap)
    ensures
        r == trap_of_mcause(mcause),
{
    if mcause >= 0x8000_0000 {
        let code = mcause & 0x7fff_ffff;
        let interrupt = match code {
            0 => Interrupt::UserSoft,
            1 => Interrupt::SupervisorSoft,
            3 => Interrupt::MachineSoft,
            4 => Interrupt::UserTimer,
            5 => Interrupt::SupervisorTimer,
            7 => Interrupt::MachineTimer,
            8 => Interrupt::UserExternal,
            9 => Interrupt::SupervisorExternal,
            11 => Interrupt::MachineExternal,
            _ => Interrupt::Unknown,
        };
        Trap::Interrupt(interrupt)
    } else {
        let exception = match mcause {
            0 => Exception::InstructionMisaligned,
            1 => Exception::InstructionFault,
            2 => Exception::IllegalInstruction,
            3 => Exception::Breakpoint,
            4 => Exception::LoadMisaligned,
            5 => Exception::LoadFault,
            6 => Exception::StoreMisaligned,
            7 => Exception::StoreFault,
            8 => Exception::UserEnvCall,
            9 => Exception::SupervisorEnvCall,
            11 => Exception::MachineEnvCall,
            12 => Exception::InstructionPageFault,
            13 => Exception::LoadPageFault,
            15 => Exception::StorePageFault,
            _ => Exception::Unknown,
        };
        Trap::Exception(exception)
    }
}

/// The readable name of a trap cause.
pub open spec fn mcause_description(trap: Trap) -> Seq<char> {
    match trap {
        Trap::Interrupt(i) => match i {
            Interrupt::UserSoft => "User software interrupt"@,
            Interrupt::SupervisorSoft => "Supervisor software interrupt"@,
            Interrupt::MachineSoft => "Machine software interrupt"@,
            Interrupt::UserTimer => "User timer interrupt"@,
            Interrupt::SupervisorTimer => "Supervisor timer interrupt"@,
            Interrupt::MachineTimer => "Machine timer interrupt"@,
            Interrupt::UserExternal => "User external interrupt"@,
            Interrupt::SupervisorExternal => "Supervisor external interrupt"@,
            Interrupt::MachineExternal => "Machine external interrupt"@,
            Interrupt::Unknown => "Reserved/Unknown"@,
        },
        Trap::Exception(e) => match e {
            Exception::InstructionMisaligned => "Instruction access misaligned"@,
            Exception::InstructionFault => "Instruction access fault"@,
            Exception::IllegalInstruction => "Illegal instruction"@,
            Exception::Breakpoint => "Breakpoint"@,
            Exception::LoadMisaligned => "Load address misaligned"@,
            Exception::LoadFault => "Load access fault"@,
            Exception::StoreMisaligned => "Store/AMO address misaligned"@,
            Exception::StoreFault => "Store/AMO access fault"@,
            Exception::UserEnvCall => "Environment call from U-mode"@,
            Exception::SupervisorEnvCall => "Environment call from S-mode"@,
            Exception::MachineEnvCall => "Environment call from M-mode"@,
            Exception::InstructionPageFault => "Instruction page fault"@,
            Exception::LoadPageFault => "Load page fault"@,
            Exception::StorePageFault => "Store/AMO page fault"@,
            Exception::Unknown => "Reserved"@,
        },
    }
}

/// Name a decoded trap cause; see [`mcause_description`].
pub fn print_mcause(mcval: Trap) -> (r: &'static str)
    ensures
        r@ == mcause_description(mcval),
{
    match mcval {
        Trap::Interrupt(i) => match i {
            Interrupt::UserSoft => "User software interrupt",
            Interrupt::SupervisorSoft => "Supervisor software interrupt",
            Interrupt::MachineSoft => "Machine software interrupt",
            Interrupt::UserTimer => "User timer interrupt",
            Interrupt::SupervisorTimer => "Supervisor timer interrupt",
            Interrupt::MachineTimer => "Machine timer interrupt",
            Interrupt::UserExternal => "User external interrupt",
            Interrupt::SupervisorExternal => "Supervisor external interrupt",
            Interrupt::MachineExternal => "Machine external interrupt",
            Interrupt::Unknown => "Reserved/Unknown",
        },
        Trap::Exception(e) => match e {
            Exception::InstructionMisaligned => "Instruction access misaligned",
            Exception::InstructionFault => "Instruction access fault",
            Exception::IllegalInstruction => "Illegal instruction",
            Exception::Breakpoint => "Breakpoint",
            Exception::LoadMisaligned => "Load address misaligned",
            Exception::LoadFault => "Load access fault",
            Exception::StoreMisaligned => "Store/AMO address misaligned",
            Exception::StoreFault => "Store/AMO access fault",
            Exception::UserEnvCall => "Environment call from U-mode",
            Exception::SupervisorEnvCall => "Environment call from S-mode",
            Exception::MachineEnvCall => "Environment call from M-mode",
            Exception::InstructionPageFault => "Instruction page fault",
            Exception::LoadPageFault => "Load page fault",
            Exception::StorePageFault => "Store/AMO page fault",
            Exception::Unknown => "Reserved",
        },
    }
}

/// The character of one hexadecimal digit.
pub open spec fn hex_digit_char(n: u32) -> char {
    if n == 0 {
        '0'
    } else if n == 1 {
        '1'
    } else if n == 2 {
        '2'
    } else if n == 3 {
        '3'
    } else if n == 4 {
        '4'
    } else if n == 5 {
        '5'
    } else if n == 6 {
        '6'
    } else if n == 7 {
        '7'
    } else if n == 8 {
        '8'
    } else if n == 9 {
        '9'
    } else if n == 10 {
        'A'
    } else if n == 11 {
        'B'
    } else if n == 12 {
        'C'
    } else if n == 13 {
        'D'
    } else if n == 14 {
        'E'
    } else {
        'F'
    }
}

/// The eight hexadecimal digits of a word, most significant first.
pub open spec fn hex_digits(w: u32) -> Seq<char> {
    Seq::new(8, |i: int| hex_digit_char((w >> (((7 - i) * 4) as u32)) & 0xf))
}

/// A word rendered as `0x` and eight hexadecimal digits.
pub open spec fn hex_text(w: u32) -> Seq<char> {
    seq!['0', 'x'] + hex_digits(w)
}

/// One hexadecimal digit as text.
fn hex_digit(n: u32) -> (r: &'static str)
    requires
        n < 16,
    ensures
        r@ =~= seq![hex_digit_char(n)],
{
    proof {
        reveal_strlit("0");
        reveal_strlit("1");
        reveal_strlit("2");
        reveal_strlit("3");
        reveal_strlit("4");
        reveal_strlit("5");
        reveal_strlit("6");
        reveal_strlit("7");
        reveal_strlit("8");
        reveal_strlit("9");
        reveal_strlit("A");
        reveal_strlit("B");
        reveal_strlit("C");
        reveal_strlit("D");
        reveal_strlit("E");
        reveal_strlit("F");
    }
    match n {
        0 => "0",
        1 => "1",
        2 => "2",
        3 => "3",
        4 => "4",
        5 => "5",
        6 => "6",
        7 => "7",
        8 => "8",
        9 => "9",
        10 => "A",
        11 => "B",
        12 => "C",
        13 => "D",
        14 => "E",
        _ => "F",
    }
}

/// Render a word as `0x` and eight hexadecimal digits; see [`hex_text`].
pub fn hex_u32(w: u32) -> (r: String)
    ensures
        r@ == hex_text(w),
{
    proof {
        reveal_strlit("0x");
    }
    let mut s = String::from_str("0x");
    proof {
        assert(s@ =~= seq!['0', 'x'] + hex_digits(w).take(0));
    }
    let mut i: usize = 0;
    while i < 8
        invariant
            i <= 8,
            s@ == seq!['0', 'x'] + hex_digits(w).take(i as int),
        decreases 8 - i,
    {
        let shift: u32 = 28 - 4 * (i as u32);
        let d: u32 = (w >> shift) & 0xf;
        proof {
            assert((w >> shift) & 0xf < 16) by (bit_vector);
        }
        s.append(hex_digit(d));
        proof {
            assert(hex_digits(w)[i as int] == hex_digit_char(d));
            assert(s@ =~= seq!['0', 'x'] + hex_digits(w).take(i as int + 1));
        }
        i = i + 1;
    }
    proof {
        assert(hex_digits(w).take(8) =~= hex_digits(w));
        assert(s@ =~= hex_text(w));
    }
    s
}

/// The trap-handling control and status registers, read by the caller at
/// the moment of the fault.
#[derive(Clone, Copy, PartialEq, Eq, Structural, Debug)]
pub struct CsrSnapshot {
    pub mcause: u32,
    pub mtval: u32,
    pub mepc: u32,
    pub mstatus: u32,
    pub mtvec: u32,
    pub mie: u32,
    pub mip: u32,
}

/// The machine-state dump rendered by [`print_riscv_state`].
pub open spec fn riscv_state_text(csrs: CsrSnapshot) -> Seq<char> {
    "\r\n---| RISC-V Machine State |---\r\nLast cause (mcause): "@ + mcause_description(
        trap_of_mcause(csrs.mcause),
    ) + "\r\nLast value (mtval):  "@ + hex_text(csrs.mtval) + "\r\n mepc:    "@ + hex_text(
        csrs.mepc,
    ) + "\r\n mstatus: "@ + hex_text(csrs.mstatus) + "\r\n mtvec:   "@ + hex_text(csrs.mtvec)
        + "\r\n mie:     "@ + hex_text(csrs.mie) + "\r\n mip:     "@ + hex_text(csrs.mip)
        + "\r\n"@
}

/// Render the machine-state dump for fault reporting; the caller sends the
/// text to its sink. See [`riscv_state_text`] for the exact contents.
pub fn print_riscv_state(csrs: &CsrSnapshot) -> (r: String)
    ensures
        r@ == riscv_state_text(*csrs),
{
    let mut s = String::from_str("\r\n---| RISC-V Machine State |---\r\nLast cause (mcause): ");
    s.append(print_mcause(decode_mcause(csrs.mcause)));
    s.append("\r\nLast value (mtval):  ");
    s.append(hex_u32(csrs.mtval).as_str());
    s.append("\r\n mepc:    ");
    s.append(hex_u32(csrs.mepc).as_str());
    s.append("\r\n mstatus: ");
    s.append(hex_u32(csrs.mstatus).as_str());
    s.append("\r\n mtvec:   ");
    s.append(hex_u32(csrs.mtvec).as_str());
    s.append("\r\n mie:     ");
    s.append(hex_u32(csrs.mie).as_str());
    s.append("\r\n mip:     ");
    s.append(hex_u32(csrs.mip).as_str());
    s.append("\r\n");
    proof {
        assert(s@ =~= riscv_state_text(*csrs));
    }
    s
}

} // verus!
