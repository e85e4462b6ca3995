//! Thread objects and their lifecycle state machine.
//!
//! A [`Thread`] owns its stack and its saved register context.  The typed
//! wrappers [`ReadyRef`] and [`RunningRef`] distinguish a thread parked in a
//! scheduler queue from the thread on the CPU; converting between them is the
//! state transition, so a state mismatch is an API error rather than a
//! runtime surprise.

use vstd::prelude::*;
use crate::arch::aarch64::{Aarch64Context, context_loadable, INITIAL_PSTATE};
use crate::mem::stack_pool::{Stack, DEFAULT_STACK_CANARY, word_at_top};
use crate::time::{
    Instant,
    Duration,
    TimeSlice,
    quantum_for,
    ts_after_update,
    slice_expired,
};

pub mod builder;
pub mod handle;

pub use builder::ThreadBuilder;
pub use handle::JoinHandle;

verus! {

/// Unique identifier for threads: a non-zero integer, never reused within a
/// boot session.
#[derive(Debug, Clone, Copy, PartialEq, Eq, Structural, PartialOrd, Ord, Hash)]
pub struct ThreadId(pub usize);

impl ThreadId {
    /// Validity: thread identifiers are non-zero.
    pub open spec fn wf(&self) -> bool {
        self.0 != 0
    }

    /// Create a new thread ID from a u64; zero is mapped to the smallest
    /// valid identifier.
    pub fn new(id: u64) -> (r: Self)
        ensures
            r.0 == (if id as usize == 0 {
                1usize
            } else {
                id as usize
            }),
            r.wf(),
    {
        let id_usize = id as usize;
        if id_usize == 0 {
            ThreadId(1)
        } else {
            ThreadId(id_usize)
        }
    }

    /// Get the raw ID value.
    pub fn get(self) -> (r: usize)
        ensures
            r == self.0,
    {
        self.0
    }

    /// Get the ID as u64.
    pub fn as_u64(self) -> (r: u64)
        ensures
            r == self.0 as u64,
    {
        self.0 as u64
    }
}

/// Thread execution state.
#[derive(Debug, Clone, Copy, PartialEq, Eq, Structural)]
pub enum ThreadState {
    /// Thread is ready to run
    Ready,
    /// Thread is currently running
    Running,
    /// Thread is blocked waiting for something
    Blocked,
    /// Thread has finished execution
    Finished,
}

/// A thread: identity, lifecycle state, priority, owned stack, owned saved
/// context, time-slice accounting, join handshake, and the builder-settable
/// attributes.
pub struct Thread {
    pub id: ThreadId,
    pub state: ThreadState,
    pub priority: u8,
    pub stack: Option<Stack>,
    pub context: Aarch64Context,
    pub entry_point: usize,
    pub join_result: Option<()>,
    pub joined: bool,
    pub time_slice: TimeSlice,
    pub name: Option<String>,
    pub cpu_affinity: u64,
    pub group_id: u32,
    pub critical: bool,
    pub preemptible: bool,
    pub tls_size: usize,
    pub debug_info: bool,
    pub rt_priority: u8,
    pub nice_value: i8,
    pub inherit_signal_mask: bool,
    pub environment: Option<Vec<(String, String)>>,
    pub max_cpu_time: u64,
    pub max_memory: usize,
    pub max_files: u32,
    pub max_children: u32,
}

/// The thread after the scheduler picks it: state Running and a fresh time
/// slice starting at `now`.
pub open spec fn started(t: Thread, now: Instant) -> Thread {
    Thread {
        state: ThreadState::Running,
        time_slice: TimeSlice { slice_start: now.0, ..t.time_slice },
        ..t
    }
}

/// The thread after it leaves the CPU and becomes ready again.
pub open spec fn stopped(t: Thread) -> Thread {
    Thread { state: ThreadState::Ready, ..t }
}

/// The thread after it blocks on an external event.
pub open spec fn blocked(t: Thread) -> Thread {
    Thread { state: ThreadState::Blocked, ..t }
}

/// The thread after its entry function returned: the join result is
/// published, and only then does the state read Finished.
pub open spec fn finished(t: Thread) -> Thread {
    Thread { state: ThreadState::Finished, join_result: Some(()), ..t }
}

impl Thread {
    /// Well-formedness: the identifier is valid, an owned stack is well
    /// formed, and a finished thread always has its join result published.
    pub open spec fn wf(&self) -> bool {
        &&& self.id.wf()
        &&& match self.stack {
            Some(s) => s.wf(),
            None => true,
        }
        &&& (self.state is Finished ==> self.join_result is Some)
    }

    /// The saved context can be loaded by the context-switch substrate.
    pub open spec fn context_ready(&self) -> bool {
        context_loadable(&self.context)
    }

    /// Create a new thread owning `stack`, with its initial context laid out
    /// so that execution will begin at `entry_point` on the stack's bottom.
    ///
    /// Returns the thread and the join handle sharing its identity.
    pub fn new(id: ThreadId, stack: Stack, entry_point: usize, priority: u8) -> (r: (
        Thread,
        JoinHandle,
    ))
        requires
            id.wf(),
            stack.wf(),
            entry_point != 0,
        ensures
            r.0.wf(),
            r.0.context_ready(),
            r.0.id == id,
            r.0.state == ThreadState::Ready,
            r.0.priority == priority,
            r.0.stack == Some(stack),
            r.0.entry_point == entry_point,
            r.0.join_result is None,
            !r.0.joined,
            r.0.time_slice == (TimeSlice {
                vruntime: 0,
                slice_start: 0,
                quantum: quantum_for(priority),
                priority,
            }),
            r.0.name is None,
            r.0.context.pc == entry_point as u64,
            r.0.context.sp as int == stack.memory@.len() - (stack.memory@.len() % 16),
            r.0.context.pstate == INITIAL_PSTATE,
            r.0.cpu_affinity == 0,
            r.0.group_id == 0,
            !r.0.critical,
            r.0.preemptible,
            r.0.tls_size == 0,
            !r.0.debug_info,
            r.0.rt_priority == 0,
            r.0.nice_value == 0,
            r.0.inherit_signal_mask,
            r.0.environment is None,
            r.0.max_cpu_time == 0,
            r.0.max_memory == 0,
            r.0.max_files == 0,
            r.0.max_children == 0,
            r.1.thread_id == id,
    {
        let stack_bottom = stack.stack_bottom();
        let mut thread = Thread {
            id,
            state: ThreadState::Ready,
            priority,
            stack: Some(stack),
            context: Aarch64Context::default(),
            entry_point,
            join_result: None,
            joined: false,
            time_slice: TimeSlice::new(priority),
            name: None,
            cpu_affinity: 0,
            group_id: 0,
            critical: false,
            preemptible: true,
            tls_size: 0,
            debug_info: false,
            rt_priority: 0,
            nice_value: 0,
            inherit_signal_mask: true,
            environment: None,
            max_cpu_time: 0,
            max_memory: 0,
            max_files: 0,
            max_children: 0,
        };
        thread.setup_initial_context(entry_point, stack_bottom, 0);
        let join_handle = JoinHandle { thread_id: id };
        (thread, join_handle)
    }

    /// Get the thread's unique identifier.
    pub fn id(&self) -> (r: ThreadId)
        ensures
            r == self.id,
    {
        self.id
    }

    /// Get the thread's current state.
    pub fn state(&self) -> (r: ThreadState)
        ensures
            r == self.state,
    {
        self.state
    }

    /// Set the thread's state.
    pub fn set_state(&mut self, new_state: ThreadState)
        ensures
            *final(self) == (Thread { state: new_state, ..*old(self) }),
    {
        self.state = new_state;
    }

    /// Get the thread's priority.
    pub fn priority(&self) -> (r: u8)
        ensures
            r == self.priority,
    {
        self.priority
    }

    /// Set the thread's priority, recomputing its quantum.
    pub fn set_priority(&mut self, new_priority: u8)
        ensures
            *final(self) == (Thread {
                priority: new_priority,
                time_slice: TimeSlice {
                    priority: new_priority,
                    quantum: quantum_for(new_priority),
                    ..old(self).time_slice
                },
                ..*old(self)
            }),
    {
        self.priority = new_priority;
        self.time_slice.set_priority(new_priority);
    }

    /// Check if this thread is runnable (ready or running).
    pub fn is_runnable(&self) -> (r: bool)
        ensures
            r == (self.state is Ready || self.state is Running),
    {
        match self.state {
            ThreadState::Ready => true,
            ThreadState::Running => true,
            _ => false,
        }
    }

    /// Lay the initial register frame into the saved context: zeroed
    /// registers, the argument in x0, the stack pointer, and the entry
    /// address as resume PC.
    pub fn setup_initial_context(&mut self, entry_point: usize, stack_top: usize, arg: usize)
        ensures
            *final(self) == (Thread {
                context: Aarch64Context {
                    x: final(self).context.x,
                    sp: stack_top as u64,
                    pc: entry_point as u64,
                    pstate: INITIAL_PSTATE,
                },
                ..*old(self)
            }),
            final(self).context.x@[0] == arg as u64,
            forall|i: int| 1 <= i < 31 ==> final(self).context.x@[i] == 0,
    {
        self.context = Aarch64Context {
            x: [
                arg as u64,
                0,
                0,
                0,
                0,
                0,
                0,
                0,
                0,
                0,
                0,
                0,
                0,
                0,
                0,
                0,
                0,
                0,
                0,
                0,
                0,
                0,
                0,
                0,
                0,
                0,
                0,
                0,
                0,
                0,
                0,
            ],
            sp: stack_top as u64,
            pc: entry_point as u64,
            pstate: INITIAL_PSTATE,
        };
    }

    /// The initial stack pointer, when the thread owns a stack.
    pub fn stack_bottom(&self) -> (r: Option<usize>)
        ensures
            r == (match self.stack {
                Some(s) => Some(
                    (s.memory@.len() - (s.memory@.len() % 16)) as usize,
                ),
                None => None::<usize>,
            }),
    {
        match &self.stack {
            Some(stack) => Some(stack.stack_bottom()),
            None => None,
        }
    }

    /// Check whether the stack canary is intact (stack-overflow detection).
    pub fn check_stack_integrity(&self) -> (r: bool)
        requires
            self.wf(),
        ensures
            r == (match self.stack {
                Some(s) => word_at_top(s.memory@) == DEFAULT_STACK_CANARY as int,
                None => false,
            }),
    {
        match &self.stack {
            Some(stack) => stack.check_canary(DEFAULT_STACK_CANARY),
            None => false,
        }
    }

    /// Start a new time slice at `now`.
    pub fn start_time_slice(&mut self, now: Instant)
        ensures
            *final(self) == (Thread {
                time_slice: TimeSlice { slice_start: now.0, ..old(self).time_slice },
                ..*old(self)
            }),
    {
        self.time_slice.start_slice(now);
    }

    /// Update the thread's virtual runtime at `now` and report whether its
    /// time slice has expired.
    pub fn should_preempt(&mut self, now: Instant) -> (expired: bool)
        ensures
            *final(self) == (Thread {
                time_slice: ts_after_update(old(self).time_slice, now),
                ..*old(self)
            }),
            expired == slice_expired(old(self).time_slice, now),
    {
        self.time_slice.update_vruntime(now)
    }

    /// The thread's current virtual runtime.
    pub fn vruntime(&self) -> (r: u64)
        ensures
            r == self.time_slice.vruntime,
    {
        self.time_slice.vruntime()
    }

    /// Set the thread name for debugging purposes.
    pub fn set_name(&mut self, name: String)
        ensures
            *final(self) == (Thread { name: Some(name), ..*old(self) }),
    {
        self.name = Some(name);
    }

    /// The thread name.
    pub fn name(&self) -> (r: &Option<String>)
        ensures
            r == self.name,
    {
        &self.name
    }

    /// Set the CPU affinity mask.
    pub fn set_cpu_affinity(&mut self, affinity: u64)
        ensures
            *final(self) == (Thread { cpu_affinity: affinity, ..*old(self) }),
    {
        self.cpu_affinity = affinity;
    }

    /// The CPU affinity mask.
    pub fn cpu_affinity(&self) -> (r: u64)
        ensures
            r == self.cpu_affinity,
    {
        self.cpu_affinity
    }

    /// Set the thread group ID.
    pub fn set_group_id(&mut self, group_id: u32)
        ensures
            *final(self) == (Thread { group_id, ..*old(self) }),
    {
        self.group_id = group_id;
    }

    /// The thread group ID.
    pub fn group_id(&self) -> (r: u32)
        ensures
            r == self.group_id,
    {
        self.group_id
    }

    /// Override the time-slice quantum.
    pub fn set_time_slice(&mut self, duration: Duration)
        ensures
            *final(self) == (Thread {
                time_slice: TimeSlice { quantum: duration.0, ..old(self).time_slice },
                ..*old(self)
            }),
    {
        self.time_slice.set_custom_duration(duration);
    }

    /// Mark the thread as critical.
    pub fn set_critical(&mut self, critical: bool)
        ensures
            *final(self) == (Thread { critical, ..*old(self) }),
    {
        self.critical = critical;
    }

    /// Whether the thread is critical.
    pub fn is_critical(&self) -> (r: bool)
        ensures
            r == self.critical,
    {
        self.critical
    }

    /// Set whether the thread can be preempted.
    pub fn set_preemptible(&mut self, preemptible: bool)
        ensures
            *final(self) == (Thread { preemptible, ..*old(self) }),
    {
        self.preemptible = preemptible;
    }

    /// Whether the thread can be preempted.
    pub fn is_preemptible(&self) -> (r: bool)
        ensures
            r == self.preemptible,
    {
        self.preemptible
    }

    /// Reserve thread-local storage space.
    pub fn reserve_tls(&mut self, size: usize)
        ensures
            *final(self) == (Thread { tls_size: size, ..*old(self) }),
    {
        self.tls_size = size;
    }

    /// The reserved TLS size.
    pub fn tls_size(&self) -> (r: usize)
        ensures
            r == self.tls_size,
    {
        self.tls_size
    }

    /// Enable or disable debug information.
    pub fn set_debug_info(&mut self, enabled: bool)
        ensures
            *final(self) == (Thread { debug_info: enabled, ..*old(self) }),
    {
        self.debug_info = enabled;
    }

    /// Whether debug information is enabled.
    pub fn debug_info_enabled(&self) -> (r: bool)
        ensures
            r == self.debug_info,
    {
        self.debug_info
    }

    /// Set the real-time priority.
    pub fn set_realtime_priority(&mut self, rt_priority: u8)
        ensures
            *final(self) == (Thread { rt_priority, ..*old(self) }),
    {
        self.rt_priority = rt_priority;
    }

    /// The real-time priority.
    pub fn realtime_priority(&self) -> (r: u8)
        ensures
            r == self.rt_priority,
    {
        self.rt_priority
    }

    /// Set the nice value.
    pub fn set_nice_value(&mut self, nice: i8)
        ensures
            *final(self) == (Thread { nice_value: nice, ..*old(self) }),
    {
        self.nice_value = nice;
    }

    /// The nice value.
    pub fn nice_value(&self) -> (r: i8)
        ensures
            r == self.nice_value,
    {
        self.nice_value
    }

    /// Set whether the parent's signal mask is inherited.
    pub fn set_inherit_signal_mask(&mut self, inherit: bool)
        ensures
            *final(self) == (Thread { inherit_signal_mask: inherit, ..*old(self) }),
    {
        self.inherit_signal_mask = inherit;
    }

    /// Whether the parent's signal mask is inherited.
    pub fn inherits_signal_mask(&self) -> (r: bool)
        ensures
            r == self.inherit_signal_mask,
    {
        self.inherit_signal_mask
    }

    /// Set the thread's environment variables.
    pub fn set_environment(&mut self, env: Vec<(String, String)>)
        ensures
            *final(self) == (Thread { environment: Some(env), ..*old(self) }),
    {
        self.environment = Some(env);
    }

    /// The thread's environment variables.
    pub fn environment(&self) -> (r: &Option<Vec<(String, String)>>)
        ensures
            r == self.environment,
    {
        &self.environment
    }

    /// Set the maximum CPU time limit.
    pub fn set_max_cpu_time(&mut self, max_time: u64)
        ensures
            *final(self) == (Thread { max_cpu_time: max_time, ..*old(self) }),
    {
        self.max_cpu_time = max_time;
    }

    /// The maximum CPU time limit.
    pub fn max_cpu_time(&self) -> (r: u64)
        ensures
            r == self.max_cpu_time,
    {
        self.max_cpu_time
    }

    /// Set the maximum memory usage limit.
    pub fn set_max_memory(&mut self, max_memory: usize)
        ensures
            *final(self) == (Thread { max_memory, ..*old(self) }),
    {
        self.max_memory = max_memory;
    }

    /// The maximum memory usage limit.
    pub fn max_memory(&self) -> (r: usize)
        ensures
            r == self.max_memory,
    {
        self.max_memory
    }

    /// Set the maximum file descriptors limit.
    pub fn set_max_files(&mut self, max_files: u32)
        ensures
            *final(self) == (Thread { max_files, ..*old(self) }),
    {
        self.max_files = max_files;
    }

    /// The maximum file descriptors limit.
    pub fn max_files(&self) -> (r: u32)
        ensures
            r == self.max_files,
    {
        self.max_files
    }

    /// Set the maximum child threads limit.
    pub fn set_max_children(&mut self, max_children: u32)
        ensures
            *final(self) == (Thread { max_children, ..*old(self) }),
    {
        self.max_children = max_children;
    }

    /// The maximum child threads limit.
    pub fn max_children(&self) -> (r: u32)
        ensures
            r == self.max_children,
    {
        self.max_children
    }
}

/// A reference to a thread that is parked in a scheduler ready queue.
pub struct ReadyRef(pub Thread);

/// A reference to the thread that is currently executing on a CPU.
pub struct RunningRef(pub Thread);

impl ReadyRef {
    /// Validity: the thread is well formed, in state Ready, and its context
    /// can be loaded.
    pub open spec fn wf(&self) -> bool {
        &&& self.0.wf()
        &&& self.0.state is Ready
        &&& self.0.context_ready()
    }

    /// Convert to a running reference: the scheduler has picked this thread,
    /// so its state becomes Running and a fresh slice starts at `now`.
    pub fn start_running(self, now: Instant) -> (r: RunningRef)
        ensures
            r.0 == started(self.0, now),
    {
        let ReadyRef(mut t) = self;
        t.set_state(ThreadState::Running);
        t.start_time_slice(now);
        RunningRef(t)
    }

    /// The thread's priority.
    pub fn priority(&self) -> (r: u8)
        ensures
            r == self.0.priority,
    {
        self.0.priority()
    }

    /// The thread's unique identifier.
    pub fn id(&self) -> (r: ThreadId)
        ensures
            r == self.0.id,
    {
        self.0.id()
    }
}

impl RunningRef {
    /// Validity: the thread is well formed, in state Running, and its
    /// context can be loaded.
    pub open spec fn wf(&self) -> bool {
        &&& self.0.wf()
        &&& self.0.state is Running
        &&& self.0.context_ready()
    }

    /// Convert back to a ready reference when the thread is preempted or
    /// yields.
    pub fn stop_running(self) -> (r: ReadyRef)
        ensures
            r.0 == stopped(self.0),
    {
        let RunningRef(mut t) = self;
        t.set_state(ThreadState::Ready);
        ReadyRef(t)
    }

    /// Update the thread's virtual runtime at `now` and report whether its
    /// slice has expired.
    pub fn should_preempt(&mut self, now: Instant) -> (expired: bool)
        ensures
            final(self).0 == (Thread {
                time_slice: ts_after_update(old(self).0.time_slice, now),
                ..old(self).0
            }),
            expired == slice_expired(old(self).0.time_slice, now),
    {
        self.0.should_preempt(now)
    }

    /// Mark this thread as blocked and hand its record back for parking.
    pub fn block(self) -> (r: Thread)
        ensures
            r == blocked(self.0),
    {
        let RunningRef(mut t) = self;
        t.set_state(ThreadState::Blocked);
        t
    }

    /// Mark this thread as finished and hand its record back.
    ///
    /// The join result is published before the state changes to Finished, so
    /// a joiner that observes the final state always finds the result.
    pub fn finish(self) -> (r: Thread)
        ensures
            r == finished(self.0),
    {
        let RunningRef(mut t) = self;
        t.join_result = Some(());
        t.set_state(ThreadState::Finished);
        t
    }

    /// The thread's priority.
    pub fn priority(&self) -> (r: u8)
        ensures
            r == self.0.priority,
    {
        self.0.priority()
    }

    /// The thread's unique identifier.
    pub fn id(&self) -> (r: ThreadId)
        ensures
            r == self.0.id,
    {
        self.0.id()
    }

    /// The CPU this thread runs on (always CPU 0 on the single-CPU target).
    pub fn last_cpu(&self) -> (r: usize)
        ensures
            r == 0,
    {
        0
    }

    /// Read access to the thread's time-slice accounting.
    pub fn time_slice(&self) -> (r: &TimeSlice)
        ensures
            r == self.0.time_slice,
    {
        &self.0.time_slice
    }
}

/// Ready-to-Running round trip: `r.start_running(now).stop_running()` yields
/// a ready thread with identical identity and preserved priority, and the
/// virtual-runtime accumulator is unchanged, hence non-decreasing.
pub proof fn lemma_ready_running_round_trip(t: Thread, now: Instant)
    requires
        t.state is Ready,
    ensures
        stopped(started(t, now)).id == t.id,
        stopped(started(t, now)).priority == t.priority,
        stopped(started(t, now)).state is Ready,
        stopped(started(t, now)).time_slice.vruntime >= t.time_slice.vruntime,
        stopped(started(t, now)) == (Thread {
            time_slice: TimeSlice { slice_start: now.0, ..t.time_slice },
            ..t
        }),
{
}

/// A finished thread always carries its published join result: whichever
/// path marked it finished wrote the result slot first.
pub proof fn lemma_finished_has_result(t: Thread)
    ensures
        finished(t).join_result is Some,
        finished(t).state is Finished,
        t.wf() ==> finished(t).wf(),
{
}

} // verus!
