use host_emulation::boundary::{
    initialize_process, interpret_syscall_frame, plan_unyield_return, set_process_function,
    set_syscall_return_value, HostStoredState,
};
use host_emulation::process::UnixProcess;
use host_emulation::sched::{
    arguments_to_syscall, ContextSwitchReason, FunctionCall, FunctionCallSource, Syscall,
};
use host_emulation::wire;
use host_emulation::wire::{Callback, KernelReturn};

fn fresh_process() -> UnixProcess {
    UnixProcess::new("/bin/app".to_string(), "Sample Process".to_string(), 0)
}

#[test]
fn arguments_map_to_syscalls() {
    assert_eq!(arguments_to_syscall(0, 9, 9, 9, 9), Some(Syscall::YIELD));
    assert_eq!(
        arguments_to_syscall(1, 2, 0, 0x40, 7),
        Some(Syscall::SUBSCRIBE {
            driver_number: 2,
            subdriver_number: 0,
            callback_ptr: 0x40,
            appdata: 7
        })
    );
    assert_eq!(
        arguments_to_syscall(2, 2, 1, 5, 6),
        Some(Syscall::COMMAND { driver_number: 2, subdriver_number: 1, arg0: 5, arg1: 6 })
    );
    assert_eq!(
        arguments_to_syscall(3, 2, 0, 0xDEADBEEF, 16),
        Some(Syscall::ALLOW {
            driver_number: 2,
            subdriver_number: 0,
            allow_address: 0xDEADBEEF,
            allow_size: 16
        })
    );
    assert_eq!(
        arguments_to_syscall(4, 1, 2, 0, 0),
        Some(Syscall::MEMOP { operand: 1, arg0: 2 })
    );
    assert_eq!(arguments_to_syscall(5, 0, 0, 0, 0), None);
    assert_eq!(arguments_to_syscall(255, 0, 0, 0, 0), None);
}

#[test]
fn stored_state_starts_with_zero_return() {
    let state = HostStoredState::new(3);
    assert_eq!(state.process_id, 3);
    assert_eq!(state.syscall_ret, KernelReturn::new_ret(0));
}

#[test]
fn initialize_process_changes_nothing() {
    let mut state = HostStoredState::new(1);
    let before = state;
    initialize_process(&mut state);
    assert_eq!(state, before);
}

#[test]
fn set_syscall_return_value_stores_plain_return() {
    let mut state = HostStoredState::new(0);
    set_syscall_return_value(&mut state, -3);
    assert_eq!(state.syscall_ret, KernelReturn::new_ret(-3));
}

#[test]
fn set_process_function_stores_callback_frame() {
    // S3: the frame shipped to the app carries ret_val 0 and the callback
    let mut state = HostStoredState::new(0);
    let call = FunctionCall {
        source: FunctionCallSource::Kernel,
        pc: 0x1000,
        argument0: 1,
        argument1: 2,
        argument2: 3,
        argument3: 4,
    };
    set_process_function(&mut state, call);
    assert_eq!(state.syscall_ret, KernelReturn::new_cb(Callback::new(0x1000, 1, 2, 3, 4)));
    // the frame survives the wire intact
    let bytes = state.syscall_ret.encode();
    assert_eq!(KernelReturn::decode(&bytes).unwrap(), state.syscall_ret);
}

#[test]
fn plan_unyield_ships_nothing_on_first_switch() {
    let mut state = HostStoredState::new(0);
    set_syscall_return_value(&mut state, 7);
    assert_eq!(plan_unyield_return(&state, false), None);
    assert_eq!(plan_unyield_return(&state, true), Some(KernelReturn::new_ret(7)));
}

#[test]
fn interpret_passes_non_allow_syscalls_through() {
    let mut p = fresh_process();
    let frame = wire::Syscall::new(2, 2, 1, 5, 6);
    let reason = interpret_syscall_frame(&mut p, frame);
    assert_eq!(
        reason,
        ContextSwitchReason::SyscallFired {
            syscall: Syscall::COMMAND { driver_number: 2, subdriver_number: 1, arg0: 5, arg1: 6 }
        }
    );
}

#[test]
fn interpret_faults_on_unknown_syscall_number() {
    let mut p = fresh_process();
    let frame = wire::Syscall::new(9, 0, 0, 0, 0);
    assert_eq!(interpret_syscall_frame(&mut p, frame), ContextSwitchReason::Fault);
}

#[test]
fn interpret_rewrites_allow_address() {
    // after the rewrite, the address is the kernel handle from
    // UnixProcess::allow, never the original app address
    let mut p = fresh_process();
    let frame = wire::Syscall::new(3, 2, 0, 0xDEADBEEF, 16);
    let reason = interpret_syscall_frame(&mut p, frame);
    match reason {
        ContextSwitchReason::SyscallFired {
            syscall: Syscall::ALLOW { driver_number, subdriver_number, allow_address, allow_size },
        } => {
            assert_eq!(driver_number, 2);
            assert_eq!(subdriver_number, 0);
            assert_eq!(allow_size, 16);
            assert_ne!(allow_address, 0xDEADBEEF);
            assert_ne!(allow_address, 0);
        },
        other => panic!("expected rewritten ALLOW, got {:?}", other),
    }
    // the region is now tracked under the app address
    let preambles = p.inbound_preambles();
    assert_eq!(preambles.len(), 2);
    assert_eq!(preambles[0], wire::AllowedRegionPreamble::new(0xDEADBEEF, 16));
}

#[test]
fn interpret_keeps_null_allow_address_null() {
    let mut p = fresh_process();
    let frame = wire::Syscall::new(3, 2, 0, 0, 16);
    let reason = interpret_syscall_frame(&mut p, frame);
    match reason {
        ContextSwitchReason::SyscallFired { syscall: Syscall::ALLOW { allow_address, .. } } => {
            assert_eq!(allow_address, 0);
        },
        other => panic!("expected ALLOW, got {:?}", other),
    }
    // nothing was inserted
    assert_eq!(p.inbound_preambles().len(), 1);
}
