//! The emulated process adapter: the per-process state the kernel scheduler
//! sees — lifecycle state, task queue, grant region, debug counters — and the
//! kernel-global work counter.
//!
//! Work accounting is exact: the counter is incremented once when a task is
//! enqueued and once when a process comes to hold the processor's run token
//! (it first becomes `Running`), and decremented once when a task is consumed
//! and once when the run token is given up (yield or fault).  The balance law
//! `lemma_work_balance_preserved` lifts the per-operation deltas stated in
//! every contract to the kernel-wide sum.

use vstd::prelude::*;
use std::collections::VecDeque;

use crate::boundary;
use crate::boundary::HostStoredState;
use crate::sched::{
    CallbackId, ContextSwitchReason, FunctionCall, FunctionCallSource, State, Syscall, Task,
};

verus! {

/// The kernel-global counters the emulated processes share: the outstanding
/// external work and how many grant regions each process may hold.
pub struct Kernel {
    work: usize,
    grant_count: usize,
}

impl Kernel {
    /// How much external work is outstanding: queued tasks plus run tokens.
    pub closed spec fn spec_work(&self) -> nat {
        self.work as nat
    }

    pub closed spec fn spec_grant_count(&self) -> nat {
        self.grant_count as nat
    }

    pub fn new(grant_count: usize) -> (r: Kernel)
        ensures
            r.spec_work() == 0,
            r.spec_grant_count() == grant_count,
    {
        Kernel { work: 0, grant_count }
    }

    pub fn work(&self) -> (r: usize)
        ensures
            r == self.spec_work(),
    {
        self.work
    }

    /// Signals that a unit of external work arrived.
    pub fn increment_work_external(&mut self)
        requires
            old(self).spec_work() < usize::MAX,
        ensures
            final(self).spec_work() == old(self).spec_work() + 1,
            final(self).spec_grant_count() == old(self).spec_grant_count(),
    {
        self.work = self.work + 1;
    }

    /// Signals that a unit of external work was consumed.
    pub fn decrement_work_external(&mut self)
        requires
            old(self).spec_work() >= 1,
        ensures
            final(self).spec_work() == old(self).spec_work() - 1,
            final(self).spec_grant_count() == old(self).spec_grant_count(),
    {
        self.work = self.work - 1;
    }

    /// How many grant regions each process may hold.
    pub fn get_grant_count_and_finalize_external(&self) -> (r: usize)
        ensures
            r == self.spec_grant_count(),
    {
        self.grant_count
    }
}

/// The mathematical model of one emulated process as the scheduler sees it.
#[verifier::ext_equal]
pub ghost struct EmProcessModel {
    pub app_id: usize,
    pub name: Seq<char>,
    pub state: State,
    pub tasks: Seq<Task>,
    pub grant_region: usize,
    pub restart_count: usize,
    pub timeslice_expiration_count: u64,
    pub dropped_callback_count: u64,
    pub syscall_count: u64,
    pub last_syscall: Option<Syscall>,
}

/// A process's share of the kernel work counter: its queued tasks, plus one
/// if it holds the run token (it is `Running`, or `Running` behind a `stop`).
pub open spec fn spec_work_contribution(m: EmProcessModel) -> nat {
    m.tasks.len() + if m.state == State::Running || m.state == State::StoppedRunning {
        1nat
    } else {
        0nat
    }
}

/// The retention predicate of callback removal for `id`, as a function.
pub open spec fn spec_task_filter(id: CallbackId) -> spec_fn(Task) -> bool {
    |t: Task| spec_task_survives(t, id)
}

/// Whether a queued task survives the removal of callbacks for `id`:
/// kernel-originated tasks always do, driver-originated tasks only when they
/// belong to a different callback.
pub open spec fn spec_task_survives(t: Task, id: CallbackId) -> bool {
    match t {
        Task::FunctionCall(fc) => match fc.source {
            FunctionCallSource::Kernel => true,
            FunctionCallSource::Driver(d) => d != id,
        },
    }
}

/// The scheduler-visible shared-slice handle built from an already-translated
/// kernel address.
#[derive(Debug, Copy, Clone, PartialEq, Eq, Structural)]
pub struct AppSlice {
    pub ptr: u64,
    pub len: u64,
    pub app_id: usize,
}

/// One emulated application under the scheduler's process contract.
pub struct EmulatedProcess {
    app_id: usize,
    name: String,
    state: State,
    tasks: VecDeque<Task>,
    grant_region: usize,
    restart_count: usize,
    timeslice_expiration_count: u64,
    dropped_callback_count: u64,
    syscall_count: u64,
    last_syscall: Option<Syscall>,
}

impl View for EmulatedProcess {
    type V = EmProcessModel;

    closed spec fn view(&self) -> EmProcessModel {
        EmProcessModel {
            app_id: self.app_id,
            name: self.name@,
            state: self.state,
            tasks: self.tasks@,
            grant_region: self.grant_region,
            restart_count: self.restart_count,
            timeslice_expiration_count: self.timeslice_expiration_count,
            dropped_callback_count: self.dropped_callback_count,
            syscall_count: self.syscall_count,
            last_syscall: self.last_syscall,
        }
    }
}

impl EmulatedProcess {
    /// Whether the process may still be scheduled or receive work.
    pub open spec fn spec_is_active(m: EmProcessModel) -> bool {
        m.state != State::StoppedFaulted && m.state != State::Fault
    }

    /// Creates the process in the `Unstarted` state with one queued
    /// kernel-originated task whose program counter of zero means "exec the
    /// process", and accounts that task as one unit of external work.
    pub fn create(app_id: usize, name: String, kernel: &mut Kernel) -> (r: EmulatedProcess)
        requires
            old(kernel).spec_work() < usize::MAX,
        ensures
            r@.app_id == app_id,
            r@.name == name@,
            r@.state == State::Unstarted,
            r@.tasks == seq![
                Task::FunctionCall(
                    FunctionCall {
                        source: FunctionCallSource::Kernel,
                        pc: 0,
                        argument0: 0,
                        argument1: 0,
                        argument2: 0,
                        argument3: 0,
                    },
                ),
            ],
            r@.grant_region == 0,
            r@.restart_count == 0,
            r@.timeslice_expiration_count == 0,
            r@.dropped_callback_count == 0,
            r@.syscall_count == 0,
            r@.last_syscall is None,
            final(kernel).spec_work() == old(kernel).spec_work() + 1,
            final(kernel).spec_grant_count() == old(kernel).spec_grant_count(),
            final(kernel).spec_work() - old(kernel).spec_work() == spec_work_contribution(r@),
    {
        let mut tasks: VecDeque<Task> = VecDeque::new();
        tasks.push_back(
            Task::FunctionCall(
                FunctionCall {
                    source: FunctionCallSource::Kernel,
                    pc: 0,
                    argument0: 0,
                    argument1: 0,
                    argument2: 0,
                    argument3: 0,
                },
            ),
        );
        kernel.increment_work_external();
        let r = EmulatedProcess {
            app_id,
            name,
            state: State::Unstarted,
            tasks,
            grant_region: 0,
            restart_count: 0,
            timeslice_expiration_count: 0,
            dropped_callback_count: 0,
            syscall_count: 0,
            last_syscall: None,
        };
        proof {
            assert(r@.tasks =~= seq![
                Task::FunctionCall(
                    FunctionCall {
                        source: FunctionCallSource::Kernel,
                        pc: 0,
                        argument0: 0,
                        argument1: 0,
                        argument2: 0,
                        argument3: 0,
                    },
                ),
            ]);
        }
        r
    }

    pub fn appid(&self) -> (r: usize)
        ensures
            r == self@.app_id,
    {
        self.app_id
    }

    pub fn get_process_name(&self) -> (r: &String)
        ensures
            r@ == self@.name,
    {
        &self.name
    }

    pub fn is_active(&self) -> (r: bool)
        ensures
            r == Self::spec_is_active(self@),
    {
        self.state != State::StoppedFaulted && self.state != State::Fault
    }

    /// Queues a task for the process and accounts it as one unit of external
    /// work; refused (and nothing changes) when the process has faulted.
    pub fn enqueue_task(&mut self, task: Task, kernel: &mut Kernel) -> (r: bool)
        requires
            old(kernel).spec_work() < usize::MAX,
        ensures
            r == Self::spec_is_active(old(self)@),
            !r ==> final(self)@ == old(self)@ && *final(kernel) == *old(kernel),
            r ==> {
                &&& final(self)@ == (EmProcessModel {
                    tasks: old(self)@.tasks.push(task),
                    ..old(self)@
                })
                &&& final(kernel).spec_work() == old(kernel).spec_work() + 1
                &&& final(kernel).spec_grant_count() == old(kernel).spec_grant_count()
                &&& final(kernel).spec_work() - old(kernel).spec_work() == spec_work_contribution(
                    final(self)@,
                ) - spec_work_contribution(old(self)@)
            },
    {
        if !self.is_active() {
            return false;
        }
        kernel.increment_work_external();
        self.tasks.push_back(task);
        proof {
            assert(final(self)@ =~~= (EmProcessModel {
                tasks: old(self)@.tasks.push(task),
                ..old(self)@
            }));
        }
        true
    }

    /// Takes the process's next pending task, consuming one unit of external
    /// work; `None` when the queue is empty.
    pub fn dequeue_task(&mut self, kernel: &mut Kernel) -> (r: Option<Task>)
        requires
            old(self)@.tasks.len() > 0 ==> old(kernel).spec_work() >= 1,
        ensures
            old(self)@.tasks.len() == 0 ==> r is None && final(self)@ == old(self)@
                && *final(kernel) == *old(kernel),
            old(self)@.tasks.len() > 0 ==> {
                &&& r == Some(old(self)@.tasks[0])
                &&& final(self)@ == (EmProcessModel {
                    tasks: old(self)@.tasks.drop_first(),
                    ..old(self)@
                })
                &&& final(kernel).spec_work() == old(kernel).spec_work() - 1
                &&& final(kernel).spec_grant_count() == old(kernel).spec_grant_count()
                &&& final(kernel).spec_work() - old(kernel).spec_work() == spec_work_contribution(
                    final(self)@,
                ) - spec_work_contribution(old(self)@)
            },
    {
        match self.tasks.pop_front() {
            None => {
                proof {
                    assert(final(self)@ =~~= old(self)@);
                }
                None
            },
            Some(task) => {
                kernel.decrement_work_external();
                proof {
                    assert(old(self)@.tasks.subrange(1, old(self)@.tasks.len() as int) =~= old(
                        self,
                    )@.tasks.drop_first());
                    assert(final(self)@ =~~= (EmProcessModel {
                        tasks: old(self)@.tasks.drop_first(),
                        ..old(self)@
                    }));
                }
                Some(task)
            },
        }
    }

    /// Drops every queued task that belongs to the callback `callback_id`,
    /// retaining kernel-originated tasks and other drivers' tasks, and
    /// consumes the removed tasks' units of external work.
    pub fn remove_pending_callbacks(&mut self, callback_id: CallbackId, kernel: &mut Kernel)
        requires
            old(kernel).spec_work() >= old(self)@.tasks.len(),
        ensures
            final(self)@ == (EmProcessModel {
                tasks: old(self)@.tasks.filter(spec_task_filter(callback_id)),
                ..old(self)@
            }),
            final(kernel).spec_work() - old(kernel).spec_work() == spec_work_contribution(
                final(self)@,
            ) - spec_work_contribution(old(self)@),
            final(kernel).spec_grant_count() == old(kernel).spec_grant_count(),
    {
        let ghost pred = spec_task_filter(callback_id);
        let n = self.tasks.len();
        let mut kept: VecDeque<Task> = VecDeque::new();
        let mut i: usize = 0;
        proof {
            assert(old(self)@.tasks.take(0) =~= Seq::<Task>::empty());
            reveal(Seq::filter);
            assert(kept@ =~= old(self)@.tasks.take(0).filter(pred));
        }
        while i < n
            invariant
                n == self.tasks@.len(),
                self == old(self),
                i <= n,
                kept@ == old(self)@.tasks.take(i as int).filter(spec_task_filter(callback_id)),
            decreases n - i,
        {
            let t = self.tasks[i];
            let keep = match t {
                Task::FunctionCall(fc) => match fc.source {
                    FunctionCallSource::Kernel => true,
                    FunctionCallSource::Driver(d) => d != callback_id,
                },
            };
            proof {
                reveal(Seq::filter);
                let taken = old(self)@.tasks.take(i as int);
                let taken1 = old(self)@.tasks.take(i + 1);
                assert(taken1.drop_last() =~= taken);
                assert(taken1.last() == old(self)@.tasks[i as int]);
                assert(t == old(self)@.tasks[i as int]);
                assert(spec_task_filter(callback_id)(t) == spec_task_survives(t, callback_id));
                assert(keep == spec_task_survives(t, callback_id));
            }
            if keep {
                kept.push_back(t);
            }
            i = i + 1;
        }
        proof {
            broadcast use vstd::seq_lib::group_filter_ensures;
            assert(old(self)@.tasks.take(n as int) =~= old(self)@.tasks);
            assert(kept@ == old(self)@.tasks.filter(spec_task_filter(callback_id)));
        }
        let removed = n - kept.len();
        let mut j: usize = 0;
        while j < removed
            invariant
                removed <= n,
                j <= removed,
                kernel.spec_work() == old(kernel).spec_work() - j,
                kernel.spec_grant_count() == old(kernel).spec_grant_count(),
                old(kernel).spec_work() >= n,
            decreases removed - j,
        {
            kernel.decrement_work_external();
            j = j + 1;
        }
        self.tasks = kept;
        proof {
            assert(final(self)@ =~~= (EmProcessModel {
                tasks: old(self)@.tasks.filter(spec_task_filter(callback_id)),
                ..old(self)@
            }));
        }
    }

    pub fn get_state(&self) -> (r: State)
        ensures
            r == self@.state,
    {
        self.state
    }

    /// The process gave up the processor: a `Running` process becomes
    /// `Yielded` and its run token is consumed; any other state is unchanged.
    pub fn set_yielded_state(&mut self, kernel: &mut Kernel)
        requires
            old(self)@.state == State::Running ==> old(kernel).spec_work() >= 1,
        ensures
            old(self)@.state == State::Running ==> final(self)@ == (EmProcessModel {
                state: State::Yielded,
                ..old(self)@
            }) && final(kernel).spec_work() == old(kernel).spec_work() - 1,
            old(self)@.state != State::Running ==> final(self)@ == old(self)@ && *final(kernel)
                == *old(kernel),
            final(kernel).spec_grant_count() == old(kernel).spec_grant_count(),
            final(kernel).spec_work() - old(kernel).spec_work() == spec_work_contribution(
                final(self)@,
            ) - spec_work_contribution(old(self)@),
    {
        if matches!(self.state, State::Running) {
            self.state = State::Yielded;
            kernel.decrement_work_external();
            proof {
                assert(final(self)@ =~~= (EmProcessModel { state: State::Yielded, ..old(self)@ }));
            }
        } else {
            proof {
                assert(final(self)@ =~~= old(self)@);
            }
        }
    }

    /// Stops the process: `Running` and `Yielded` move behind their stopped
    /// counterparts; any other state is unchanged.  The run token, if held,
    /// is kept for `resume`.
    pub fn stop(&mut self)
        ensures
            old(self)@.state == State::Running ==> final(self)@ == (EmProcessModel {
                state: State::StoppedRunning,
                ..old(self)@
            }),
            old(self)@.state == State::Yielded ==> final(self)@ == (EmProcessModel {
                state: State::StoppedYielded,
                ..old(self)@
            }),
            old(self)@.state != State::Running && old(self)@.state != State::Yielded ==> final(self)@ == old(self)@,
            spec_work_contribution(final(self)@) == spec_work_contribution(old(self)@),
    {
        match self.state {
            State::Running => {
                self.state = State::StoppedRunning;
            },
            State::Yielded => {
                self.state = State::StoppedYielded;
            },
            _ => {},
        }
        proof {
            assert(final(self)@ =~~= (EmProcessModel { state: final(self)@.state, ..old(self)@ }));
        }
    }

    /// Resumes a stopped process into the state it was stopped in; any other
    /// state is unchanged.
    pub fn resume(&mut self)
        ensures
            old(self)@.state == State::StoppedRunning ==> final(self)@ == (EmProcessModel {
                state: State::Running,
                ..old(self)@
            }),
            old(self)@.state == State::StoppedYielded ==> final(self)@ == (EmProcessModel {
                state: State::Yielded,
                ..old(self)@
            }),
            old(self)@.state != State::StoppedRunning && old(self)@.state != State::StoppedYielded
                ==> final(self)@ == old(self)@,
            spec_work_contribution(final(self)@) == spec_work_contribution(old(self)@),
    {
        match self.state {
            State::StoppedRunning => {
                self.state = State::Running;
            },
            State::StoppedYielded => {
                self.state = State::Yielded;
            },
            _ => {},
        }
        proof {
            assert(final(self)@ =~~= (EmProcessModel { state: final(self)@.state, ..old(self)@ }));
        }
    }

    /// Marks the process faulted — an unrecoverable error: a transport
    /// failure, an undecodable frame, or a spawn failure.  A held run token
    /// is consumed; the fault is terminal.
    pub fn set_fault_state(&mut self, kernel: &mut Kernel)
        requires
            (old(self)@.state == State::Running || old(self)@.state == State::StoppedRunning)
                ==> old(kernel).spec_work() >= 1,
        ensures
            final(self)@ == (EmProcessModel { state: State::Fault, ..old(self)@ }),
            final(kernel).spec_grant_count() == old(kernel).spec_grant_count(),
            final(kernel).spec_work() - old(kernel).spec_work() == spec_work_contribution(
                final(self)@,
            ) - spec_work_contribution(old(self)@),
    {
        let held = matches!(self.state, State::Running) || matches!(self.state, State::StoppedRunning);
        self.state = State::Fault;
        if held {
            kernel.decrement_work_external();
        }
        proof {
            assert(final(self)@ =~~= (EmProcessModel { state: State::Fault, ..old(self)@ }));
        }
    }

    /// The process is about to run for the first time: `Unstarted` becomes
    /// `Running` and takes the run token; any other state is unchanged.
    pub fn mark_running_on_switch(&mut self, kernel: &mut Kernel)
        requires
            old(kernel).spec_work() < usize::MAX,
        ensures
            old(self)@.state == State::Unstarted ==> final(self)@ == (EmProcessModel {
                state: State::Running,
                ..old(self)@
            }) && final(kernel).spec_work() == old(kernel).spec_work() + 1,
            old(self)@.state != State::Unstarted ==> final(self)@ == old(self)@ && *final(kernel)
                == *old(kernel),
            final(kernel).spec_grant_count() == old(kernel).spec_grant_count(),
            final(kernel).spec_work() - old(kernel).spec_work() == spec_work_contribution(
                final(self)@,
            ) - spec_work_contribution(old(self)@),
    {
        if matches!(self.state, State::Unstarted) {
            self.state = State::Running;
            kernel.increment_work_external();
            proof {
                assert(final(self)@ =~~= (EmProcessModel { state: State::Running, ..old(self)@ }));
            }
        } else {
            proof {
                assert(final(self)@ =~~= old(self)@);
            }
        }
    }

    /// Records the outcome of a context switch: an expired timeslice bumps
    /// its debug counter (saturating); other outcomes change nothing here.
    pub fn note_context_switch_result(&mut self, reason: ContextSwitchReason)
        ensures
            reason == ContextSwitchReason::TimesliceExpired ==> final(self)@ == (EmProcessModel {
                timeslice_expiration_count: if old(self)@.timeslice_expiration_count < u64::MAX {
                    (old(self)@.timeslice_expiration_count + 1) as u64
                } else {
                    old(self)@.timeslice_expiration_count
                },
                ..old(self)@
            }),
            reason != ContextSwitchReason::TimesliceExpired ==> final(self)@ == old(self)@,
            spec_work_contribution(final(self)@) == spec_work_contribution(old(self)@),
    {
        if matches!(reason, ContextSwitchReason::TimesliceExpired) {
            if self.timeslice_expiration_count < u64::MAX {
                self.timeslice_expiration_count = self.timeslice_expiration_count + 1;
            }
            proof {
                assert(final(self)@ =~~= (EmProcessModel {
                    timeslice_expiration_count: final(self)@.timeslice_expiration_count,
                    ..old(self)@
                }));
            }
        } else {
            proof {
                assert(final(self)@ =~~= old(self)@);
            }
        }
    }

    pub fn get_restart_count(&self) -> (r: usize)
        ensures
            r == self@.restart_count,
    {
        self.restart_count
    }

    /// Builds the scheduler-visible shared-slice handle from an
    /// already-translated kernel address; the translation itself is the
    /// allow-map's job.  A null kernel address yields no slice.
    pub fn allow(&self, buf_start_addr: u64, size: u64) -> (r: Option<AppSlice>)
        ensures
            buf_start_addr == 0 ==> r is None,
            buf_start_addr != 0 ==> r == Some(
                AppSlice { ptr: buf_start_addr, len: size, app_id: self@.app_id },
            ),
    {
        if buf_start_addr == 0 {
            None
        } else {
            Some(AppSlice { ptr: buf_start_addr, len: size, app_id: self.app_id })
        }
    }

    /// The process's grant arena offset, when it is active and `grant_num`
    /// names an existing grant.
    pub fn get_grant_ptr(&self, grant_num: usize, kernel: &Kernel) -> (r: Option<usize>)
        ensures
            (Self::spec_is_active(self@) && grant_num < kernel.spec_grant_count()) <==> r is Some,
            r matches Some(g) ==> g == self@.grant_region,
    {
        if !self.is_active() {
            return None;
        }
        if grant_num >= kernel.get_grant_count_and_finalize_external() {
            return None;
        }
        Some(self.grant_region)
    }

    /// Stores the process's grant arena offset.
    pub fn set_grant_ptr(&mut self, _grant_num: usize, grant_ptr: usize)
        ensures
            final(self)@ == (EmProcessModel { grant_region: grant_ptr, ..old(self)@ }),
    {
        self.grant_region = grant_ptr;
        proof {
            assert(final(self)@ =~~= (EmProcessModel { grant_region: grant_ptr, ..old(self)@ }));
        }
    }

    /// Stores a plain syscall return value in the process's boundary state.
    pub fn set_syscall_return_value(&self, state: &mut HostStoredState, return_value: i64)
        ensures
            final(state).process_id == old(state).process_id,
            final(state).syscall_ret.ret_val == return_value,
            final(state).syscall_ret.cb.pc == 0,
    {
        boundary::set_syscall_return_value(state, return_value);
    }

    /// Stores a callback delivery in the process's boundary state; a
    /// `Yielded` process becomes `Running` again and takes the run token.
    pub fn set_process_function(
        &mut self,
        state: &mut HostStoredState,
        callback: FunctionCall,
        kernel: &mut Kernel,
    )
        requires
            old(kernel).spec_work() < usize::MAX,
        ensures
            final(state).process_id == old(state).process_id,
            final(state).syscall_ret.ret_val == 0,
            final(state).syscall_ret.cb.pc == callback.pc,
            final(state).syscall_ret.cb.args == [
                callback.argument0,
                callback.argument1,
                callback.argument2,
                callback.argument3,
            ],
            old(self)@.state == State::Yielded ==> final(self)@ == (EmProcessModel {
                state: State::Running,
                ..old(self)@
            }) && final(kernel).spec_work() == old(kernel).spec_work() + 1,
            old(self)@.state != State::Yielded ==> final(self)@ == old(self)@ && *final(kernel)
                == *old(kernel),
            final(kernel).spec_grant_count() == old(kernel).spec_grant_count(),
            final(kernel).spec_work() - old(kernel).spec_work() == spec_work_contribution(
                final(self)@,
            ) - spec_work_contribution(old(self)@),
    {
        boundary::set_process_function(state, callback);
        if matches!(self.state, State::Yielded) {
            self.state = State::Running;
            kernel.increment_work_external();
            proof {
                assert(final(self)@ =~~= (EmProcessModel { state: State::Running, ..old(self)@ }));
            }
        } else {
            proof {
                assert(final(self)@ =~~= old(self)@);
            }
        }
    }

    pub fn debug_syscall_count(&self) -> (r: u64)
        ensures
            r == self@.syscall_count,
    {
        self.syscall_count
    }

    pub fn debug_dropped_callback_count(&self) -> (r: u64)
        ensures
            r == self@.dropped_callback_count,
    {
        self.dropped_callback_count
    }

    pub fn debug_timeslice_expiration_count(&self) -> (r: u64)
        ensures
            r == self@.timeslice_expiration_count,
    {
        self.timeslice_expiration_count
    }

    /// Bumps the timeslice-expiration debug counter (saturating).
    pub fn debug_timeslice_expired(&mut self)
        ensures
            final(self)@ == (EmProcessModel {
                timeslice_expiration_count: if old(self)@.timeslice_expiration_count < u64::MAX {
                    (old(self)@.timeslice_expiration_count + 1) as u64
                } else {
                    old(self)@.timeslice_expiration_count
                },
                ..old(self)@
            }),
    {
        if self.timeslice_expiration_count < u64::MAX {
            self.timeslice_expiration_count = self.timeslice_expiration_count + 1;
        }
        proof {
            assert(final(self)@ =~~= (EmProcessModel {
                timeslice_expiration_count: final(self)@.timeslice_expiration_count,
                ..old(self)@
            }));
        }
    }

    /// Records one syscall for diagnostics: bumps the syscall counter
    /// (saturating) and remembers the syscall.
    pub fn debug_syscall_called(&mut self, last_syscall: Syscall)
        ensures
            final(self)@ == (EmProcessModel {
                syscall_count: if old(self)@.syscall_count < u64::MAX {
                    (old(self)@.syscall_count + 1) as u64
                } else {
                    old(self)@.syscall_count
                },
                last_syscall: Some(last_syscall),
                ..old(self)@
            }),
    {
        if self.syscall_count < u64::MAX {
            self.syscall_count = self.syscall_count + 1;
        }
        self.last_syscall = Some(last_syscall);
        proof {
            assert(final(self)@ =~~= (EmProcessModel {
                syscall_count: final(self)@.syscall_count,
                last_syscall: Some(last_syscall),
                ..old(self)@
            }));
        }
    }
}

/// The total share of the kernel work counter that a set of processes holds.
pub open spec fn spec_total_contribution(ms: Seq<EmProcessModel>) -> nat
    decreases ms.len(),
{
    if ms.len() == 0 {
        0
    } else {
        spec_work_contribution(ms[0]) + spec_total_contribution(ms.drop_first())
    }
}

proof fn lemma_total_contribution_update(ms: Seq<EmProcessModel>, i: int, m: EmProcessModel)
    requires
        0 <= i < ms.len(),
    ensures
        spec_total_contribution(ms.update(i, m)) == spec_total_contribution(ms)
            - spec_work_contribution(ms[i]) + spec_work_contribution(m),
    decreases ms.len(),
{
    if i == 0 {
        assert(ms.update(0, m)[0] == m);
        assert(ms.update(0, m).drop_first() =~= ms.drop_first());
    } else {
        assert(ms.update(i, m)[0] == ms[0]);
        assert(ms.update(i, m).drop_first() =~= ms.drop_first().update(i - 1, m));
        lemma_total_contribution_update(ms.drop_first(), i - 1, m);
    }
}

/// Work-counter balance: the counter equals the total of the processes'
/// shares — their queued tasks plus their run tokens — and every operation
/// above keeps it so, because each one's contract states that the counter's
/// change equals the change of the process's own share.  This lemma lifts
/// that per-operation delta to the kernel-wide sum: applied after each
/// operation, it carries the balance over any run.
pub proof fn lemma_work_balance_preserved(
    work_before: nat,
    work_after: nat,
    ms_before: Seq<EmProcessModel>,
    ms_after: Seq<EmProcessModel>,
    i: int,
)
    requires
        work_before == spec_total_contribution(ms_before),
        0 <= i < ms_before.len(),
        ms_after == ms_before.update(i, ms_after[i]),
        work_after == work_before + spec_work_contribution(ms_after[i]) - spec_work_contribution(
            ms_before[i],
        ),
    ensures
        work_after == spec_total_contribution(ms_after),
{
    lemma_total_contribution_update(ms_before, i, ms_after[i]);
}

} // verus!
