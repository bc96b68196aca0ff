use host_emulation::boundary::HostStoredState;
use host_emulation::emproc::{EmulatedProcess, Kernel};
use host_emulation::sched::{
    CallbackId, ContextSwitchReason, FunctionCall, FunctionCallSource, State, Task,
};
use host_emulation::wire::{Callback, KernelReturn};

fn call(source: FunctionCallSource, pc: u64) -> FunctionCall {
    FunctionCall { source, pc, argument0: 0, argument1: 0, argument2: 0, argument3: 0 }
}

fn fresh() -> (EmulatedProcess, Kernel) {
    let mut kernel = Kernel::new(4);
    let p = EmulatedProcess::create(0, "Sample Process".to_string(), &mut kernel);
    (p, kernel)
}

#[test]
fn create_enqueues_exec_task_and_one_work_unit() {
    let (mut p, mut kernel) = fresh();
    assert_eq!(kernel.work(), 1);
    assert_eq!(p.get_state(), State::Unstarted);
    let task = p.dequeue_task(&mut kernel).unwrap();
    // pc 0 marks "exec the process"
    assert_eq!(task, Task::FunctionCall(call(FunctionCallSource::Kernel, 0)));
    assert_eq!(kernel.work(), 0);
    assert!(p.dequeue_task(&mut kernel).is_none());
}

#[test]
fn work_counter_balances_over_a_run() {
    // the counter always equals queued tasks plus run tokens
    let (mut p, mut kernel) = fresh();
    assert_eq!(kernel.work(), 1); // 1 task
    p.mark_running_on_switch(&mut kernel);
    assert_eq!(p.get_state(), State::Running);
    assert_eq!(kernel.work(), 2); // 1 task + run token
    let _ = p.dequeue_task(&mut kernel).unwrap();
    assert_eq!(kernel.work(), 1); // run token only
    p.set_yielded_state(&mut kernel);
    assert_eq!(p.get_state(), State::Yielded);
    assert_eq!(kernel.work(), 0);
    let mut state = HostStoredState::new(0);
    p.set_process_function(&mut state, call(FunctionCallSource::Kernel, 0x1000), &mut kernel);
    assert_eq!(p.get_state(), State::Running);
    assert_eq!(kernel.work(), 1); // run token again
    p.set_fault_state(&mut kernel);
    assert_eq!(p.get_state(), State::Fault);
    assert_eq!(kernel.work(), 0);
}

#[test]
fn enqueue_refused_when_faulted() {
    let (mut p, mut kernel) = fresh();
    p.set_fault_state(&mut kernel);
    let before = kernel.work();
    assert!(!p.enqueue_task(Task::FunctionCall(call(FunctionCallSource::Kernel, 1)), &mut kernel));
    assert_eq!(kernel.work(), before);
}

#[test]
fn enqueue_dequeue_is_fifo() {
    let (mut p, mut kernel) = fresh();
    let _ = p.dequeue_task(&mut kernel);
    let a = Task::FunctionCall(call(FunctionCallSource::Kernel, 1));
    let b = Task::FunctionCall(call(FunctionCallSource::Kernel, 2));
    assert!(p.enqueue_task(a, &mut kernel));
    assert!(p.enqueue_task(b, &mut kernel));
    assert_eq!(kernel.work(), 2);
    assert_eq!(p.dequeue_task(&mut kernel), Some(a));
    assert_eq!(p.dequeue_task(&mut kernel), Some(b));
    assert_eq!(kernel.work(), 0);
}

#[test]
fn remove_pending_callbacks_filters_by_driver_id() {
    let (mut p, mut kernel) = fresh();
    let _ = p.dequeue_task(&mut kernel);
    let target = CallbackId { driver_num: 2, subscribe_num: 0 };
    let other = CallbackId { driver_num: 2, subscribe_num: 1 };
    let kernel_task = Task::FunctionCall(call(FunctionCallSource::Kernel, 1));
    let target_task = Task::FunctionCall(call(FunctionCallSource::Driver(target), 2));
    let other_task = Task::FunctionCall(call(FunctionCallSource::Driver(other), 3));
    p.enqueue_task(kernel_task, &mut kernel);
    p.enqueue_task(target_task, &mut kernel);
    p.enqueue_task(other_task, &mut kernel);
    p.enqueue_task(target_task, &mut kernel);
    assert_eq!(kernel.work(), 4);
    p.remove_pending_callbacks(target, &mut kernel);
    // kernel-originated tasks and other drivers' tasks are retained
    assert_eq!(kernel.work(), 2);
    assert_eq!(p.dequeue_task(&mut kernel), Some(kernel_task));
    assert_eq!(p.dequeue_task(&mut kernel), Some(other_task));
    assert_eq!(p.dequeue_task(&mut kernel), None);
}

#[test]
fn stop_and_resume_preserve_the_underlying_state() {
    let (mut p, mut kernel) = fresh();
    p.mark_running_on_switch(&mut kernel);
    p.stop();
    assert_eq!(p.get_state(), State::StoppedRunning);
    p.resume();
    assert_eq!(p.get_state(), State::Running);
    p.set_yielded_state(&mut kernel);
    p.stop();
    assert_eq!(p.get_state(), State::StoppedYielded);
    p.resume();
    assert_eq!(p.get_state(), State::Yielded);
}

#[test]
fn fault_is_terminal_for_scheduling() {
    let (mut p, mut kernel) = fresh();
    p.set_fault_state(&mut kernel);
    assert!(!p.is_active());
    // resume does not revive a faulted process
    p.resume();
    assert_eq!(p.get_state(), State::Fault);
}

#[test]
fn grant_region_lookup_respects_grant_count() {
    let (mut p, kernel) = fresh();
    // grant_count is 4
    assert_eq!(p.get_grant_ptr(0, &kernel), Some(0));
    assert_eq!(p.get_grant_ptr(4, &kernel), None);
    p.set_grant_ptr(1, 0x500);
    assert_eq!(p.get_grant_ptr(1, &kernel), Some(0x500));
}

#[test]
fn debug_counters_count() {
    let (mut p, _kernel) = fresh();
    assert_eq!(p.debug_syscall_count(), 0);
    assert_eq!(p.debug_timeslice_expiration_count(), 0);
    assert_eq!(p.debug_dropped_callback_count(), 0);
    p.debug_timeslice_expired();
    p.note_context_switch_result(ContextSwitchReason::TimesliceExpired);
    p.note_context_switch_result(ContextSwitchReason::Fault);
    assert_eq!(p.debug_timeslice_expiration_count(), 2);
    p.debug_syscall_called(host_emulation::sched::Syscall::YIELD);
    assert_eq!(p.debug_syscall_count(), 1);
}

#[test]
fn allow_adapter_builds_slice_from_kernel_address() {
    let (p, _kernel) = fresh();
    assert_eq!(p.allow(0, 16), None);
    let slice = p.allow(0x700, 16).unwrap();
    assert_eq!(slice.ptr, 0x700);
    assert_eq!(slice.len, 16);
    assert_eq!(slice.app_id, 0);
}

#[test]
fn set_process_function_requires_yielded_for_run_token() {
    let (mut p, mut kernel) = fresh();
    let mut state = HostStoredState::new(0);
    // Unstarted: the callback is stored but no run token is taken
    p.set_process_function(&mut state, call(FunctionCallSource::Kernel, 0x1000), &mut kernel);
    assert_eq!(p.get_state(), State::Unstarted);
    assert_eq!(state.syscall_ret, KernelReturn::new_cb(Callback::new(0x1000, 0, 0, 0, 0)));
    assert_eq!(kernel.work(), 1);
}
