//! In-kernel services answering command requests.
//!
//! Every service exposes the uniform command contract of the syscall
//! boundary: `command(subdriver_number, arg0, arg1, process_identity)`
//! answers with a tagged [`CommandReturn`] and never faults — an invalid
//! request only ever earns an error code. Validation of the arguments is
//! each service's own responsibility; the router forwards them untouched.

use vstd::prelude::*;

use crate::syscall::CommandReturn;
use crate::syscall::ErrorCode;
use crate::syscall::ProcessId;

verus! {

/// Driver identifier under which the life service is registered by
/// convention, and at the same time the answer it serves.
pub const LIFE: u32 = 42;

/// The answer the Mary service checks requests against.
pub const MARY_AGE: u32 = 20;

/// Demonstration service around the meaning of life.
///
/// Command `0` returns the meaning of life; command `1` succeeds iff the
/// first argument is the meaning of life.
pub struct LifeDriver;

/// What [`LifeDriver::command`] answers.
pub open spec fn life_command(command_num: u32, data: u32) -> CommandReturn {
    if command_num == 0 {
        CommandReturn::SuccessU32(LIFE)
    } else if command_num == 1 {
        if data != LIFE {
            CommandReturn::Failure(ErrorCode::Inval)
        } else {
            CommandReturn::Success
        }
    } else {
        CommandReturn::Failure(ErrorCode::Nosupport)
    }
}

impl LifeDriver {
    pub fn new() -> (r: LifeDriver)
        ensures
            r == LifeDriver,
    {
        LifeDriver
    }

    /// Answer a command request; see [`life_command`] for the exact answer.
    pub fn command(&self, command_num: u32, data: u32, _arg1: u32, _process: ProcessId) -> (r:
        CommandReturn)
        ensures
            r == life_command(command_num, data),
    {
        match command_num {
            0 => CommandReturn::success_u32(LIFE),
            1 => {
                if data != LIFE {
                    CommandReturn::failure(ErrorCode::Inval)
                } else {
                    CommandReturn::success()
                }
            },
            _ => CommandReturn::failure(ErrorCode::Nosupport),
        }
    }
}

/// Demonstration service around Mary's age.
///
/// Command `0` returns the age; command `1` succeeds iff the first argument
/// equals it.
pub struct MaryDriver;

/// What [`MaryDriver::command`] answers.
pub open spec fn mary_command(command_num: u32, data: u32) -> CommandReturn {
    if command_num == 0 {
        CommandReturn::SuccessU32(MARY_AGE)
    } else if command_num == 1 {
        if data != MARY_AGE {
            CommandReturn::Failure(ErrorCode::Inval)
        } else {
            CommandReturn::Success
        }
    } else {
        CommandReturn::Failure(ErrorCode::Nosupport)
    }
}

impl MaryDriver {
    pub fn new() -> (r: MaryDriver)
        ensures
            r == MaryDriver,
    {
        MaryDriver
    }

    /// Answer a command request; see [`mary_command`] for the exact answer.
    pub fn command(&self, command_num: u32, data: u32, _arg1: u32, _process: ProcessId) -> (r:
        CommandReturn)
        ensures
            r == mary_command(command_num, data),
    {
        match command_num {
            0 => CommandReturn::success_u32(MARY_AGE),
            1 => {
                if data != MARY_AGE {
                    CommandReturn::failure(ErrorCode::Inval)
                } else {
                    CommandReturn::success()
                }
            },
            _ => CommandReturn::failure(ErrorCode::Nosupport),
        }
    }
}

/// Echo service: command `0` answers with its first argument.
///
/// Useful for exercising the full round trip from a process's request to
/// the value it observes after resumption, since the expected answer is the
/// request itself.
pub struct EchoDriver;

/// What [`EchoDriver::command`] answers.
pub open spec fn echo_command(command_num: u32, data: u32) -> CommandReturn {
    if command_num == 0 {
        CommandReturn::SuccessU32(data)
    } else {
        CommandReturn::Failure(ErrorCode::Nosupport)
    }
}

impl EchoDriver {
    pub fn new() -> (r: EchoDriver)
        ensures
            r == EchoDriver,
    {
        EchoDriver
    }

    /// Answer a command request; see [`echo_command`] for the exact answer.
    pub fn command(&self, command_num: u32, data: u32, _arg1: u32, _process: ProcessId) -> (r:
        CommandReturn)
        ensures
            r == echo_command(command_num, data),
    {
        match command_num {
            0 => CommandReturn::success_u32(data),
            _ => CommandReturn::failure(ErrorCode::Nosupport),
        }
    }
}

} // verus!
