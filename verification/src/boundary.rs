//! The boundary driver: the kernel scheduler's view of the userspace/kernel
//! boundary for one emulated process.
//!
//! The driver keeps, per process, the most recent kernel return to be shipped
//! to the app on the next unyield exchange, and interprets the syscall frame
//! that came back.  An allow-class syscall is rewritten on the spot: its
//! app-space address is translated to the kernel-space handle returned by the
//! process's allow-map, so downstream kernel code never sees an app address.

use vstd::prelude::*;

use crate::process::{spec_allow_effect, UnixProcess};
use crate::sched::{
    arguments_to_syscall, spec_arguments_to_syscall, ContextSwitchReason, FunctionCall, Syscall,
};
use crate::wire;
use crate::wire::KernelReturn;

verus! {

/// The raw argument block of one syscall request, as the app lays it out.
#[derive(Debug, Copy, Clone, PartialEq, Eq, Structural)]
pub struct SysCallArgs {
    pub identifier: u64,
    pub syscall_number: u64,
    pub arg0: u64,
    pub arg1: u64,
    pub arg2: u64,
    pub arg3: u64,
}

/// Per-process boundary memory: which process the state belongs to and the
/// most recent kernel return, to be shipped on the next unyield exchange.
#[derive(Debug, Copy, Clone, PartialEq, Eq)]
pub struct HostStoredState {
    pub process_id: usize,
    pub syscall_ret: KernelReturn,
}

impl HostStoredState {
    /// Fresh boundary state for the process with id `process_id`: the stored
    /// return starts as a plain zero return.
    pub fn new(process_id: usize) -> (r: HostStoredState)
        ensures
            r.process_id == process_id,
            r.syscall_ret.ret_val == 0,
            r.syscall_ret.cb.pc == 0,
            r.syscall_ret.cb.args == [0u64, 0u64, 0u64, 0u64],
    {
        HostStoredState { process_id, syscall_ret: KernelReturn::new_ret(0) }
    }
}

/// Prepares a process for its first context switch.  Nothing is to do: the
/// child process is spawned on the first `switch_to_process`.
pub fn initialize_process(state: &mut HostStoredState)
    ensures
        *final(state) == *old(state),
{
}

/// Stores a plain syscall return value, to be shipped on the next unyield
/// exchange; the embedded callback's program counter is zero, so the app
/// reads the return value.
pub fn set_syscall_return_value(state: &mut HostStoredState, return_value: i64)
    ensures
        final(state).process_id == old(state).process_id,
        final(state).syscall_ret.ret_val == return_value,
        final(state).syscall_ret.cb.pc == 0,
        final(state).syscall_ret.cb.args == [0u64, 0u64, 0u64, 0u64],
{
    state.syscall_ret = KernelReturn::new_ret(return_value);
}

/// Stores a callback delivery, to be shipped on the next unyield exchange:
/// the return value is zero and the app jumps to the callback's program
/// counter.
pub fn set_process_function(state: &mut HostStoredState, callback: FunctionCall)
    ensures
        final(state).process_id == old(state).process_id,
        final(state).syscall_ret.ret_val == 0,
        final(state).syscall_ret.cb.pc == callback.pc,
        final(state).syscall_ret.cb.args == [
            callback.argument0,
            callback.argument1,
            callback.argument2,
            callback.argument3,
        ],
{
    state.syscall_ret = KernelReturn::new_cb(
        wire::Callback::new(
            callback.pc,
            callback.argument0,
            callback.argument1,
            callback.argument2,
            callback.argument3,
        ),
    );
}

/// The kernel return a `switch_to_process` ships to the app: nothing on the
/// very first switch (the child is spawned instead), else the stored return.
pub fn plan_unyield_return(state: &HostStoredState, was_started: bool) -> (r: Option<KernelReturn>)
    ensures
        !was_started ==> r is None,
        was_started ==> r == Some(state.syscall_ret),
{
    if was_started {
        Some(state.syscall_ret)
    } else {
        None
    }
}

/// Interprets the syscall frame an unyield exchange returned.  An unknown
/// syscall class number is a `Fault`.  An allow-class syscall is rewritten:
/// its app-space address is replaced by the kernel-space handle that
/// `UnixProcess::allow` returns for it, and the allow-map gains the region;
/// every other syscall passes through unchanged.
pub fn interpret_syscall_frame(process: &mut UnixProcess, frame: wire::Syscall) -> (r:
    ContextSwitchReason)
    requires
        old(process).wf(),
        old(process)@.next_kern_addr < u64::MAX,
        frame.args[3] <= usize::MAX,
    ensures
        final(process).wf(),
        ({
            let sopt = spec_arguments_to_syscall(
                frame.syscall_number as u8,
                frame.args[0],
                frame.args[1],
                frame.args[2],
                frame.args[3],
            );
            match sopt {
                None => r == ContextSwitchReason::Fault && final(process)@ == old(process)@,
                Some(s) => match s {
                    Syscall::ALLOW { driver_number, subdriver_number, allow_address, allow_size } => {
                        let kern = if allow_address == 0 {
                            0u64
                        } else {
                            old(process)@.next_kern_addr
                        };
                        &&& r == (ContextSwitchReason::SyscallFired {
                            syscall: Syscall::ALLOW {
                                driver_number,
                                subdriver_number,
                                allow_address: kern,
                                allow_size,
                            },
                        })
                        &&& spec_allow_effect(
                            old(process)@,
                            final(process)@,
                            allow_address,
                            allow_size as nat,
                            kern,
                        )
                    },
                    _ => r == (ContextSwitchReason::SyscallFired { syscall: s })
                        && final(process)@ == old(process)@,
                },
            }
        }),
{
    let num = #[verifier::truncate] (frame.syscall_number as u8);
    let decoded = arguments_to_syscall(num, frame.args[0], frame.args[1], frame.args[2], frame.args[3]);
    match decoded {
        None => ContextSwitchReason::Fault,
        Some(s) => match s {
            Syscall::ALLOW { driver_number, subdriver_number, allow_address, allow_size } => {
                let kern = process.allow(allow_address, allow_size as usize);
                ContextSwitchReason::SyscallFired {
                    syscall: Syscall::ALLOW {
                        driver_number,
                        subdriver_number,
                        allow_address: kern,
                        allow_size,
                    },
                }
            },
            other => ContextSwitchReason::SyscallFired { syscall: other },
        },
    }
}

} // verus!
