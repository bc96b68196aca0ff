//! Scheduler-facing types: process lifecycle states, queued tasks, the
//! decoded syscall, and the outcome of a context switch.

use vstd::prelude::*;

verus! {

/// The lifecycle state of one emulated process.
#[derive(Debug, Copy, Clone, PartialEq, Eq, Structural)]
pub enum State {
    Unstarted,
    Yielded,
    Running,
    StoppedYielded,
    StoppedRunning,
    Fault,
    StoppedFaulted,
}

/// Identifies the driver callback a queued task belongs to.
#[derive(Debug, Copy, Clone, PartialEq, Eq, Structural)]
pub struct CallbackId {
    pub driver_num: u64,
    pub subscribe_num: u64,
}

/// Who scheduled a queued function call.
#[derive(Debug, Copy, Clone, PartialEq, Eq, Structural)]
pub enum FunctionCallSource {
    /// Scheduled by the kernel itself; never removed by callback cleanup.
    Kernel,
    /// Scheduled on behalf of the identified driver callback.
    Driver(CallbackId),
}

/// One pending callback invocation: the program counter and its arguments.
/// A program counter of zero is the kernel's "exec the process" marker.
#[derive(Debug, Copy, Clone, PartialEq, Eq, Structural)]
pub struct FunctionCall {
    pub source: FunctionCallSource,
    pub pc: u64,
    pub argument0: u64,
    pub argument1: u64,
    pub argument2: u64,
    pub argument3: u64,
}

/// One entry of a process's task queue.
#[derive(Debug, Copy, Clone, PartialEq, Eq, Structural)]
pub enum Task {
    FunctionCall(FunctionCall),
}

/// A syscall, decoded from the wire frame's number and arguments.
#[allow(non_camel_case_types)]
#[derive(Debug, Copy, Clone, PartialEq, Eq, Structural)]
pub enum Syscall {
    YIELD,
    SUBSCRIBE { driver_number: u64, subdriver_number: u64, callback_ptr: u64, appdata: u64 },
    COMMAND { driver_number: u64, subdriver_number: u64, arg0: u64, arg1: u64 },
    ALLOW { driver_number: u64, subdriver_number: u64, allow_address: u64, allow_size: u64 },
    MEMOP { operand: u64, arg0: u64 },
}

/// Why a context switch back to the kernel happened.
#[derive(Debug, Copy, Clone, PartialEq, Eq, Structural)]
pub enum ContextSwitchReason {
    /// The process made a syscall.
    SyscallFired { syscall: Syscall },
    /// The process's timeslice expired.
    TimesliceExpired,
    /// The process faulted: a transport failure or an undecodable frame.
    Fault,
}

/// The syscall denoted by a syscall class number and four raw arguments, or
/// nothing when the class number names no syscall.
pub open spec fn spec_arguments_to_syscall(
    syscall_number: u8,
    r0: u64,
    r1: u64,
    r2: u64,
    r3: u64,
) -> Option<Syscall> {
    if syscall_number == 0 {
        Some(Syscall::YIELD)
    } else if syscall_number == 1 {
        Some(
            Syscall::SUBSCRIBE {
                driver_number: r0,
                subdriver_number: r1,
                callback_ptr: r2,
                appdata: r3,
            },
        )
    } else if syscall_number == 2 {
        Some(Syscall::COMMAND { driver_number: r0, subdriver_number: r1, arg0: r2, arg1: r3 })
    } else if syscall_number == 3 {
        Some(Syscall::ALLOW { driver_number: r0, subdriver_number: r1, allow_address: r2, allow_size: r3 })
    } else if syscall_number == 4 {
        Some(Syscall::MEMOP { operand: r0, arg0: r1 })
    } else {
        None
    }
}

/// Decodes a syscall class number and four raw arguments into the syscall
/// they denote; an unknown class number decodes to nothing.
pub fn arguments_to_syscall(syscall_number: u8, r0: u64, r1: u64, r2: u64, r3: u64) -> (r: Option<
    Syscall,
>)
    ensures
        r == spec_arguments_to_syscall(syscall_number, r0, r1, r2, r3),
{
    match syscall_number {
        0 => Some(Syscall::YIELD),
        1 => Some(
            Syscall::SUBSCRIBE {
                driver_number: r0,
                subdriver_number: r1,
                callback_ptr: r2,
                appdata: r3,
            },
        ),
        2 => Some(Syscall::COMMAND { driver_number: r0, subdriver_number: r1, arg0: r2, arg1: r3 }),
        3 => Some(
            Syscall::ALLOW { driver_number: r0, subdriver_number: r1, allow_address: r2, allow_size: r3 },
        ),
        4 => Some(Syscall::MEMOP { operand: r0, arg0: r1 }),
        _ => None,
    }
}

} // verus!
