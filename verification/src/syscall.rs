//! Words, identities and result types of the syscall boundary.
//!
//! The target architecture is a 32-bit RISC-V machine, so a machine word —
//! the unit in which arguments, results and error codes travel — is a `u32`.

use vstd::prelude::*;

verus! {

/// Identity of the process on whose behalf a request is made.
///
/// The kernel assigns each process a unique identifier and a slot index in
/// the process table; this core only carries the pair along, it never
/// interprets it.
#[derive(Clone, Copy, PartialEq, Eq, Structural, Debug)]
pub struct ProcessId {
    pub identifier: u32,
    pub index: usize,
}

impl ProcessId {
    pub fn new(identifier: u32, index: usize) -> (r: ProcessId)
        ensures
            r.identifier == identifier,
            r.index == index,
    {
        ProcessId { identifier, index }
    }
}

/// Application-level error codes returned to a process.
///
/// These never escalate to a kernel fault: a misbehaving process only ever
/// receives one of these values.
#[derive(Clone, Copy, PartialEq, Eq, Structural, Debug)]
pub enum ErrorCode {
    Fail,
    Busy,
    Already,
    Off,
    Reserve,
    Inval,
    Size,
    Cancel,
    Nomem,
    Nosupport,
    Nodevice,
    Uninstalled,
    Noack,
}

/// The word in which an [`ErrorCode`] travels across the syscall boundary.
pub open spec fn error_code_word(e: ErrorCode) -> u32 {
    match e {
        ErrorCode::Fail => 1,
        ErrorCode::Busy => 2,
        ErrorCode::Already => 3,
        ErrorCode::Off => 4,
        ErrorCode::Reserve => 5,
        ErrorCode::Inval => 6,
        ErrorCode::Size => 7,
        ErrorCode::Cancel => 8,
        ErrorCode::Nomem => 9,
        ErrorCode::Nosupport => 10,
        ErrorCode::Nodevice => 11,
        ErrorCode::Uninstalled => 12,
        ErrorCode::Noack => 13,
    }
}

impl ErrorCode {
    /// Encode the error code as a machine word.
    pub fn as_word(&self) -> (r: u32)
        ensures
            r == error_code_word(*self),
    {
        match self {
            ErrorCode::Fail => 1,
            ErrorCode::Busy => 2,
            ErrorCode::Already => 3,
            ErrorCode::Off => 4,
            ErrorCode::Reserve => 5,
            ErrorCode::Inval => 6,
            ErrorCode::Size => 7,
            ErrorCode::Cancel => 8,
            ErrorCode::Nomem => 9,
            ErrorCode::Nosupport => 10,
            ErrorCode::Nodevice => 11,
            ErrorCode::Uninstalled => 12,
            ErrorCode::Noack => 13,
        }
    }
}

/// Tagged result of a single command-style service invocation.
#[derive(Clone, Copy, PartialEq, Eq, Structural, Debug)]
pub enum CommandReturn {
    /// The command succeeded and carries no payload.
    Success,
    /// The command succeeded and carries one scalar payload value.
    SuccessU32(u32),
    /// The command failed with a specific error code.
    Failure(ErrorCode),
}

impl CommandReturn {
    pub fn success() -> (r: CommandReturn)
        ensures
            r == CommandReturn::Success,
    {
        CommandReturn::Success
    }

    pub fn success_u32(value: u32) -> (r: CommandReturn)
        ensures
            r == CommandReturn::SuccessU32(value),
    {
        CommandReturn::SuccessU32(value)
    }

    pub fn failure(code: ErrorCode) -> (r: CommandReturn)
        ensures
            r == CommandReturn::Failure(code),
    {
        CommandReturn::Failure(code)
    }
}

/// Return-identifier word for a failed command.
pub const SYSCALL_RETURN_FAILURE: u32 = 0;

/// Return-identifier word for a successful command without payload.
pub const SYSCALL_RETURN_SUCCESS: u32 = 128;

/// Return-identifier word for a successful command carrying one word.
pub const SYSCALL_RETURN_SUCCESS_U32: u32 = 129;

/// First word of the encoded return value: the variant identifier.
pub open spec fn syscall_return_variant(r: CommandReturn) -> u32 {
    match r {
        CommandReturn::Success => SYSCALL_RETURN_SUCCESS,
        CommandReturn::SuccessU32(_) => SYSCALL_RETURN_SUCCESS_U32,
        CommandReturn::Failure(_) => SYSCALL_RETURN_FAILURE,
    }
}

/// Second word of the encoded return value: the payload or the error code.
pub open spec fn syscall_return_payload(r: CommandReturn) -> u32 {
    match r {
        CommandReturn::Success => 0,
        CommandReturn::SuccessU32(v) => v,
        CommandReturn::Failure(e) => error_code_word(e),
    }
}

/// Encode a command result as the two words written back to the process:
/// the variant identifier and the payload.
pub fn encode_syscall_return(r: CommandReturn) -> (words: (u32, u32))
    ensures
        words.0 == syscall_return_variant(r),
        words.1 == syscall_return_payload(r),
{
    match r {
        CommandReturn::Success => (SYSCALL_RETURN_SUCCESS, 0),
        CommandReturn::SuccessU32(v) => (SYSCALL_RETURN_SUCCESS_U32, v),
        CommandReturn::Failure(e) => (SYSCALL_RETURN_FAILURE, e.as_word()),
    }
}

/// A system call made by a process.
///
/// Only command requests are routed by this core; the four words are the
/// driver identifier, the subdriver (command) number and two arguments.
#[derive(Clone, Copy, PartialEq, Eq, Structural, Debug)]
pub enum Syscall {
    Command { driver_number: u32, subdriver_number: u32, arg0: u32, arg1: u32 },
}

} // verus!
