//! The kernel façade: spawning, cooperative yield, bootstrap, and the
//! scheduling decisions of the timer-interrupt path.
//!
//! The kernel owns the scheduler, the stack pool, the slot for the thread on
//! the CPU, and the records of threads that blocked or finished.  The actual
//! register switch and the interrupt masking are the architecture glue's
//! work: each entry point returns the [`SwitchAction`] that the glue must
//! perform, and the contracts pin down the state transition behind it.

use vstd::prelude::*;
use vstd::multiset::Multiset;
use crate::arch::Arch;
use crate::errors::{JoinError, SpawnError};
use crate::mem::stack_pool::{StackPool, StackSizeClass};
use crate::sched::trait_def::Scheduler;
use crate::sync::{AtomicBoolCell, AtomicUsizeCell};
use crate::thread::{JoinHandle, ReadyRef, RunningRef, Thread, ThreadId, ThreadState, finished};
use crate::time::Instant;

verus! {

/// A context switch the architecture glue must perform: save into the
/// context of `prev` (none when bootstrapping from the scratch context) and
/// load the context of `next`.
#[derive(Debug, Clone, Copy)]
pub struct SwitchAction {
    pub prev: Option<ThreadId>,
    pub next: ThreadId,
}

/// The kernel façade.
pub struct Kernel<A: Arch, S: Scheduler> {
    pub scheduler: S,
    pub stack_pool: StackPool,
    pub initialized: AtomicBoolCell,
    pub next_thread_id: AtomicUsizeCell,
    pub current_thread: Option<RunningRef>,
    pub finished_threads: Vec<Thread>,
    pub irq_save_ctx: Option<ThreadId>,
    pub irq_load_ctx: Option<ThreadId>,
    pub arch: core::marker::PhantomData<A>,
}

/// What a freshly spawned thread's record looks like as it enters the
/// scheduler: the minted identity, Ready state, the requested priority, and
/// an initial context that resumes at the entry point on the 16-byte aligned
/// bottom of a well-formed stack of the given class.
pub open spec fn spawned_record(
    t: Thread,
    id: ThreadId,
    entry_point: usize,
    priority: u8,
    class: StackSizeClass,
) -> bool {
    &&& t.wf()
    &&& t.context_ready()
    &&& t.id == id
    &&& t.state is Ready
    &&& t.priority == priority
    &&& t.entry_point == entry_point
    &&& t.context.pc == entry_point as u64
    &&& t.context.sp % 16 == 0
    &&& match t.stack {
        Some(st) => st.wf() && st.size_class == class && t.context.sp as int == st.memory@.len() - (
        st.memory@.len() % 16),
        None => false,
    }
}

/// The scheduler's bag of queued records grew by exactly one freshly
/// spawned record with the given identity, entry point, priority and stack
/// class.
pub open spec fn spawn_enqueued(
    pre: vstd::multiset::Multiset<Thread>,
    post: vstd::multiset::Multiset<Thread>,
    id: ThreadId,
    entry_point: usize,
    priority: u8,
    class: StackSizeClass,
) -> bool {
    exists|t: Thread| #[trigger] spawned_record(t, id, entry_point, priority, class) && post
        == pre.insert(t)
}

/// The identities of a sequence of thread records, in order.
pub open spec fn thread_ids(s: Seq<Thread>) -> Seq<ThreadId> {
    s.map_values(|t: Thread| t.id)
}

proof fn lemma_thread_ids_at(s: Seq<Thread>, i: int)
    requires
        0 <= i < s.len(),
    ensures
        thread_ids(s)[i] == s[i].id,
        thread_ids(s).contains(s[i].id),
{
    assert(thread_ids(s)[i] == s[i].id);
}

/// A thread drawn from the ready bag is not parked: parked identities have
/// count zero there, before and after an optional re-queue of the thread
/// that was interrupted (which is itself not parked either).
proof fn lemma_parked_excluded(
    parked: Seq<Thread>,
    pre: Multiset<ThreadId>,
    inserted: Option<ThreadId>,
    picked: ThreadId,
)
    requires
        forall|i: int| 0 <= i < parked.len() ==> pre.count((#[trigger] parked[i]).id) == 0,
        (match inserted {
            Some(c) => !thread_ids(parked).contains(c),
            None => true,
        }),
        (match inserted {
            Some(c) => pre.insert(c),
            None => pre,
        }).count(picked) > 0,
    ensures
        !thread_ids(parked).contains(picked),
        forall|i: int|
            0 <= i < parked.len() ==> (match inserted {
                Some(c) => pre.insert(c),
                None => pre,
            }).remove(picked).count((#[trigger] parked[i]).id) == 0,
{
    let mid = match inserted {
        Some(c) => pre.insert(c),
        None => pre,
    };
    assert forall|i: int| 0 <= i < parked.len() implies mid.count((#[trigger] parked[i]).id)
        == 0 by {
        lemma_thread_ids_at(parked, i);
    };
    if thread_ids(parked).contains(picked) {
        let j = choose|j: int|
            0 <= j < thread_ids(parked).len() && thread_ids(parked)[j] == picked;
        lemma_thread_ids_at(parked, j);
    }
}

impl<A: Arch, S: Scheduler> Kernel<A, S> {
    /// The identities of the parked (blocked or finished) threads.
    pub open spec fn parked_ids(&self) -> Seq<ThreadId> {
        thread_ids(self.finished_threads@)
    }

    /// Whether a thread with this identity has been parked as finished.
    pub open spec fn parked_finished(&self, id: ThreadId) -> bool {
        exists|i: int|
            0 <= i < self.finished_threads@.len() && (#[trigger] self.finished_threads@[i]).id
                == id && self.finished_threads@[i].state is Finished
    }

    /// Whether the join result of the thread with this identity has already
    /// been delivered to a joiner.
    pub open spec fn parked_joined(&self, id: ThreadId) -> bool {
        exists|i: int|
            0 <= i < self.finished_threads@.len() && (#[trigger] self.finished_threads@[i]).id
                == id && self.finished_threads@[i].state is Finished
                && self.finished_threads@[i].joined
    }

    /// Every queued identity is a valid, already-minted identifier, and no
    /// identity is queued twice.
    pub open spec fn queued_ok(&self) -> bool {
        &&& forall|id: ThreadId| #[trigger]
            self.scheduler.contents().count(id) > 0 ==> 0 < id.0 < self.next_thread_id@
        &&& forall|id: ThreadId| #[trigger] self.scheduler.contents().count(id) <= 1
    }

    /// The thread on the CPU is well formed and its identity is minted, not
    /// queued, and not parked.
    pub open spec fn current_ok(&self) -> bool {
        match self.current_thread {
            Some(c) => {
                &&& c.wf()
                &&& 0 < c.0.id.0 < self.next_thread_id@
                &&& self.scheduler.contents().count(c.0.id) == 0
                &&& !self.parked_ids().contains(c.0.id)
            },
            None => true,
        }
    }

    /// Parked threads are well formed, really blocked or finished, have
    /// minted identities, stand in no queue, and are pairwise distinct.
    pub open spec fn parked_ok(&self) -> bool {
        &&& forall|i: int|
            0 <= i < self.finished_threads@.len() ==> {
                &&& (#[trigger] self.finished_threads@[i]).wf()
                &&& (self.finished_threads@[i].state is Finished || self.finished_threads@[i].state
                    is Blocked)
                &&& 0 < self.finished_threads@[i].id.0 < self.next_thread_id@
                &&& self.scheduler.contents().count(self.finished_threads@[i].id) == 0
            }
        &&& forall|i: int, j: int|
            0 <= i < j < self.finished_threads@.len() ==> (#[trigger] self.finished_threads@[i]).id
                != (#[trigger] self.finished_threads@[j]).id
    }

    /// The published IRQ save/load context pointers, when set, name exactly
    /// the thread that is Running on the CPU.
    pub open spec fn irq_ok(&self) -> bool {
        &&& match self.irq_save_ctx {
            Some(id) => (match self.current_thread {
                Some(c) => c.0.id == id,
                None => false,
            }),
            None => true,
        }
        &&& match self.irq_load_ctx {
            Some(id) => (match self.current_thread {
                Some(c) => c.0.id == id,
                None => false,
            }),
            None => true,
        }
    }

    /// The kernel invariant: scheduler well-formedness, identity freshness
    /// and uniqueness across the queues, the CPU slot and the parked
    /// records, and valid IRQ context pointers.
    pub open spec fn wf(&self) -> bool {
        &&& self.scheduler.sched_wf()
        &&& self.next_thread_id@ >= 1
        &&& self.stack_pool.wf()
        &&& self.queued_ok()
        &&& self.current_ok()
        &&& self.parked_ok()
        &&& self.irq_ok()
    }

    /// Create a new kernel around a freshly built scheduler.
    pub fn new(scheduler: S) -> (r: Self)
        requires
            scheduler.sched_wf(),
            scheduler.contents() == vstd::multiset::Multiset::<ThreadId>::empty(),
        ensures
            r.wf(),
            !r.initialized@,
            r.next_thread_id@ == 1,
            r.current_thread is None,
            r.finished_threads@.len() == 0,
            r.scheduler == scheduler,
            r.stack_pool.in_use@ == 0,
            r.stack_pool.capacity == usize::MAX,
    {
        Kernel {
            scheduler,
            stack_pool: StackPool::new(),
            initialized: AtomicBoolCell::new(false),
            next_thread_id: AtomicUsizeCell::new(1),
            current_thread: None,
            finished_threads: Vec::new(),
            irq_save_ctx: None,
            irq_load_ctx: None,
            arch: core::marker::PhantomData,
        }
    }

    /// Create a kernel whose stack pool will never hand out more than
    /// `capacity` stacks at a time, so that exhaustion is reachable.
    pub fn with_pool_capacity(scheduler: S, capacity: usize) -> (r: Self)
        requires
            scheduler.sched_wf(),
            scheduler.contents() == vstd::multiset::Multiset::<ThreadId>::empty(),
        ensures
            r.wf(),
            !r.initialized@,
            r.next_thread_id@ == 1,
            r.current_thread is None,
            r.finished_threads@.len() == 0,
            r.scheduler == scheduler,
            r.stack_pool.in_use@ == 0,
            r.stack_pool.capacity == capacity,
    {
        Kernel {
            scheduler,
            stack_pool: StackPool::with_capacity(capacity),
            initialized: AtomicBoolCell::new(false),
            next_thread_id: AtomicUsizeCell::new(1),
            current_thread: None,
            finished_threads: Vec::new(),
            irq_save_ctx: None,
            irq_load_ctx: None,
            arch: core::marker::PhantomData,
        }
    }

    /// Initialize the kernel; fails when it was already initialized.
    pub fn init(&mut self) -> (r: Result<(), ()>)
        requires
            old(self).wf(),
        ensures
            final(self).wf(),
            !old(self).initialized@ ==> r == Ok::<(), ()>(()) && final(self).initialized@,
            old(self).initialized@ ==> r == Err::<(), ()>(()) && *final(self) == *old(self),
            final(self).scheduler == old(self).scheduler,
            final(self).current_thread == old(self).current_thread,
            final(self).next_thread_id@ == old(self).next_thread_id@,
            final(self).stack_pool == old(self).stack_pool,
            final(self).finished_threads == old(self).finished_threads,
            final(self).irq_save_ctx == old(self).irq_save_ctx,
            final(self).irq_load_ctx == old(self).irq_load_ctx,
    {
        if !self.initialized.load() {
            self.initialized.store(true);
            Ok(())
        } else {
            Err(())
        }
    }

    /// Whether the kernel has been initialized.
    pub fn is_initialized(&self) -> (r: bool)
        ensures
            r == self.initialized@,
    {
        self.initialized.load()
    }

    /// Mint a fresh thread identifier; identifiers are handed out
    /// monotonically and never reused.
    pub fn next_thread_id(&mut self) -> (r: ThreadId)
        requires
            old(self).wf(),
            old(self).next_thread_id@ < usize::MAX,
        ensures
            final(self).wf(),
            r.0 == old(self).next_thread_id@,
            r.wf(),
            final(self).next_thread_id@ == old(self).next_thread_id@ + 1,
            final(self).scheduler == old(self).scheduler,
            final(self).current_thread == old(self).current_thread,
            final(self).finished_threads == old(self).finished_threads,
            final(self).initialized@ == old(self).initialized@,
            final(self).stack_pool == old(self).stack_pool,
            final(self).irq_save_ctx == old(self).irq_save_ctx,
            final(self).irq_load_ctx == old(self).irq_load_ctx,
    {
        proof {
            vstd::arithmetic::div_mod::lemma_small_mod(
                (old(self).next_thread_id@ + 1) as nat,
                (usize::MAX as nat + 1) as nat,
            );
        }
        let id = self.next_thread_id.fetch_add(1);
        ThreadId(id)
    }

    /// Read access to the scheduler.
    pub fn scheduler(&self) -> (r: &S)
        ensures
            r == self.scheduler,
    {
        &self.scheduler
    }

    /// Scheduler statistics.
    pub fn thread_stats(&self) -> (r: (usize, usize, usize))
        requires
            self.wf(),
    {
        self.scheduler.stats()
    }

    /// Spawn a thread on a medium stack whose execution begins at
    /// `entry_point` (the address of the trampoline that runs the thread's
    /// work and then reports completion).
    ///
    /// Fails with `NotInitialized` before `init`, and with `OutOfMemory`
    /// exactly when the stack pool is at capacity; on failure no thread is
    /// created and no thread identifier is consumed.
    pub fn spawn(&mut self, entry_point: usize, priority: u8) -> (r: Result<JoinHandle, SpawnError>)
        requires
            old(self).wf(),
            entry_point != 0,
            old(self).next_thread_id@ < usize::MAX,
        ensures
            final(self).wf(),
            final(self).initialized@ == old(self).initialized@,
            final(self).current_thread == old(self).current_thread,
            final(self).finished_threads == old(self).finished_threads,
            !old(self).initialized@ ==> r == Err::<JoinHandle, SpawnError>(
                SpawnError::NotInitialized,
            ) && *final(self) == *old(self),
            old(self).initialized@ && old(self).stack_pool.in_use@ >= old(self).stack_pool.capacity ==> r == Err::<JoinHandle, SpawnError>(SpawnError::OutOfMemory)
                && *final(self) == *old(self),
            old(self).initialized@ && old(self).stack_pool.in_use@ < old(self).stack_pool.capacity ==> (match r {
                Ok(h) => h.thread_id.0 == old(self).next_thread_id@ && final(self).next_thread_id@
                    == old(self).next_thread_id@ + 1 && final(self).scheduler.contents() == old(self).scheduler.contents().insert(h.thread_id) && final(self).stack_pool.in_use@ == old(self).stack_pool.in_use@ + 1,
                Err(_) => false,
            }),
            r matches Ok(h) ==> spawn_enqueued(
                old(self).scheduler.queued_records(),
                final(self).scheduler.queued_records(),
                h.thread_id,
                entry_point,
                priority,
                StackSizeClass::Medium,
            ),
    {
        self.spawn_on_class(entry_point, priority, StackSizeClass::Medium)
    }

    /// Spawn a thread on a small stack; otherwise exactly like `spawn`.
    pub fn spawn_fn(&mut self, entry_point: usize, priority: u8) -> (r: Result<
        JoinHandle,
        SpawnError,
    >)
        requires
            old(self).wf(),
            entry_point != 0,
            old(self).next_thread_id@ < usize::MAX,
        ensures
            final(self).wf(),
            final(self).initialized@ == old(self).initialized@,
            final(self).current_thread == old(self).current_thread,
            final(self).finished_threads == old(self).finished_threads,
            !old(self).initialized@ ==> r == Err::<JoinHandle, SpawnError>(
                SpawnError::NotInitialized,
            ) && *final(self) == *old(self),
            old(self).initialized@ && old(self).stack_pool.in_use@ >= old(self).stack_pool.capacity ==> r == Err::<JoinHandle, SpawnError>(SpawnError::OutOfMemory)
                && *final(self) == *old(self),
            old(self).initialized@ && old(self).stack_pool.in_use@ < old(self).stack_pool.capacity ==> (match r {
                Ok(h) => h.thread_id.0 == old(self).next_thread_id@ && final(self).next_thread_id@
                    == old(self).next_thread_id@ + 1 && final(self).scheduler.contents() == old(self).scheduler.contents().insert(h.thread_id) && final(self).stack_pool.in_use@ == old(self).stack_pool.in_use@ + 1,
                Err(_) => false,
            }),
            r matches Ok(h) ==> spawn_enqueued(
                old(self).scheduler.queued_records(),
                final(self).scheduler.queued_records(),
                h.thread_id,
                entry_point,
                priority,
                StackSizeClass::Small,
            ),
    {
        self.spawn_on_class(entry_point, priority, StackSizeClass::Small)
    }

    fn spawn_on_class(&mut self, entry_point: usize, priority: u8, class: StackSizeClass) -> (r:
        Result<JoinHandle, SpawnError>)
        requires
            old(self).wf(),
            entry_point != 0,
            old(self).next_thread_id@ < usize::MAX,
        ensures
            final(self).wf(),
            final(self).initialized@ == old(self).initialized@,
            final(self).current_thread == old(self).current_thread,
            final(self).finished_threads == old(self).finished_threads,
            !old(self).initialized@ ==> r == Err::<JoinHandle, SpawnError>(
                SpawnError::NotInitialized,
            ) && *final(self) == *old(self),
            old(self).initialized@ && old(self).stack_pool.in_use@ >= old(self).stack_pool.capacity ==> r == Err::<JoinHandle, SpawnError>(SpawnError::OutOfMemory)
                && *final(self) == *old(self),
            old(self).initialized@ && old(self).stack_pool.in_use@ < old(self).stack_pool.capacity ==> (match r {
                Ok(h) => h.thread_id.0 == old(self).next_thread_id@ && final(self).next_thread_id@
                    == old(self).next_thread_id@ + 1 && final(self).scheduler.contents() == old(self).scheduler.contents().insert(h.thread_id) && final(self).stack_pool.in_use@ == old(self).stack_pool.in_use@ + 1,
                Err(_) => false,
            }),
            r matches Ok(h) ==> spawn_enqueued(
                old(self).scheduler.queued_records(),
                final(self).scheduler.queued_records(),
                h.thread_id,
                entry_point,
                priority,
                class,
            ),
    {
        if !self.is_initialized() {
            return Err(SpawnError::NotInitialized);
        }
        let stack = match self.stack_pool.allocate(class) {
            Some(s) => s,
            None => {
                return Err(SpawnError::OutOfMemory);
            },
        };
        let thread_id = self.next_thread_id();
        let (thread, join_handle) = Thread::new(thread_id, stack, entry_point, priority);
        let ghost spawned = thread;
        let ready = ReadyRef(thread);
        self.scheduler.enqueue(ready);
        proof {
            assert(spawned_record(spawned, join_handle.thread_id, entry_point, priority, class));
            assert(self.scheduler.queued_records() == old(
                self,
            ).scheduler.queued_records().insert(spawned));
            assert(spawn_enqueued(
                old(self).scheduler.queued_records(),
                self.scheduler.queued_records(),
                join_handle.thread_id,
                entry_point,
                priority,
                class,
            ));
        }
        Ok(join_handle)
    }

    /// Cooperative yield: the current thread goes to the back of its queue,
    /// the scheduler picks a successor, and the caller is told which context
    /// switch to perform.  Without a successor the CPU slot is left empty.
    pub fn yield_now(&mut self, now: Instant) -> (r: Option<SwitchAction>)
        requires
            old(self).wf(),
        ensures
            final(self).wf(),
            final(self).finished_threads == old(self).finished_threads,
            final(self).next_thread_id@ == old(self).next_thread_id@,
            final(self).initialized@ == old(self).initialized@,
            !old(self).initialized@ ==> r is None && *final(self) == *old(self),
            old(self).initialized@ && old(self).current_thread is None ==> r is None && *final(self) == *old(self),
            old(self).initialized@ ==> (old(self).current_thread matches Some(c) ==> (match r {
                Some(action) => {
                    &&& action.prev == Some(c.0.id)
                    &&& (match final(self).current_thread {
                        Some(n) => n.0.id == action.next && n.0.state is Running,
                        None => false,
                    })
                    &&& old(self).scheduler.contents().insert(c.0.id).count(action.next) > 0
                    &&& final(self).scheduler.contents() == old(self).scheduler.contents().insert(c.0.id).remove(action.next)
                    &&& final(self).irq_save_ctx == Some(action.next)
                    &&& final(self).irq_load_ctx == Some(action.next)
                },
                None => false,
            })),
    {
        if !self.is_initialized() {
            return None;
        }
        let current = match self.current_thread.take() {
            Some(c) => c,
            None => {
                return None;
            },
        };
        let prev_id = current.id();
        let ready = current.stop_running();
        self.scheduler.enqueue(ready);
        match self.scheduler.pick_next(0) {
            None => {
                // The current thread was just re-queued, so the scheduler
                // cannot have come back empty.
                proof {
                    assert(old(self).scheduler.contents().insert(prev_id).count(prev_id) > 0);
                    assert(false);
                }
                None
            },
            Some(next) => {
                let next_id = next.id();
                let running = next.start_running(now);
                self.current_thread = Some(running);
                self.irq_save_ctx = Some(next_id);
                self.irq_load_ctx = Some(next_id);
                proof {
                    lemma_parked_excluded(
                        old(self).finished_threads@,
                        old(self).scheduler.contents(),
                        Some(prev_id),
                        next_id,
                    );
                }
                Some(SwitchAction { prev: Some(prev_id), next: next_id })
            },
        }
    }

    /// Bootstrap: pick the first ready thread, publish it as current and as
    /// the IRQ save/load context, and tell the caller to switch into it from
    /// the scratch context.  Called once at boot with interrupts disabled.
    pub fn start_first_thread(&mut self, now: Instant) -> (r: Option<SwitchAction>)
        requires
            old(self).wf(),
        ensures
            final(self).wf(),
            final(self).finished_threads == old(self).finished_threads,
            final(self).next_thread_id@ == old(self).next_thread_id@,
            final(self).initialized@ == old(self).initialized@,
            !old(self).initialized@ ==> r is None && *final(self) == *old(self),
            old(self).initialized@ && old(self).current_thread is Some ==> r is None && *final(self) == *old(self),
            old(self).initialized@ && old(self).current_thread is None ==> (match r {
                Some(action) => {
                    &&& action.prev is None
                    &&& (match final(self).current_thread {
                        Some(n) => n.0.id == action.next && n.0.state is Running,
                        None => false,
                    })
                    &&& old(self).scheduler.contents().count(action.next) > 0
                    &&& final(self).scheduler.contents() == old(self).scheduler.contents().remove(action.next)
                    &&& final(self).irq_save_ctx == Some(action.next)
                    &&& final(self).irq_load_ctx == Some(action.next)
                },
                None => final(self).current_thread is None && old(self).scheduler.contents() == vstd::multiset::Multiset::<ThreadId>::empty() && final(self).scheduler.contents() == old(self).scheduler.contents() && final(self).irq_save_ctx == old(self).irq_save_ctx && final(self).irq_load_ctx == old(self).irq_load_ctx,
            }),
    {
        if !self.is_initialized() {
            return None;
        }
        if self.current_thread.is_some() {
            return None;
        }
        match self.scheduler.pick_next(0) {
            None => None,
            Some(next) => {
                let next_id = next.id();
                let running = next.start_running(now);
                self.current_thread = Some(running);
                self.irq_save_ctx = Some(next_id);
                self.irq_load_ctx = Some(next_id);
                proof {
                    lemma_parked_excluded(
                        old(self).finished_threads@,
                        old(self).scheduler.contents(),
                        None,
                        next_id,
                    );
                }
                Some(SwitchAction { prev: None, next: next_id })
            },
        }
    }

    /// Preemption from the timer-IRQ path: consult the scheduler's tick
    /// policy and, when it names a replacement, move the interrupted thread
    /// back to its queue and republish the IRQ context pointers so that the
    /// exception return loads the replacement.
    pub fn handle_irq_preemption(&mut self, now: Instant) -> (r: Option<SwitchAction>)
        requires
            old(self).wf(),
        ensures
            final(self).wf(),
            final(self).finished_threads == old(self).finished_threads,
            final(self).next_thread_id@ == old(self).next_thread_id@,
            final(self).initialized@ == old(self).initialized@,
            !old(self).initialized@ ==> r is None && *final(self) == *old(self),
            old(self).initialized@ && old(self).current_thread is None ==> r is None && *final(self) == *old(self),
            old(self).initialized@ ==> (old(self).current_thread matches Some(c) ==> (r is Some)
                == old(self).scheduler.tick_replaces(c.0, now)),
            old(self).initialized@ ==> (old(self).current_thread matches Some(c) ==> (match r {
                Some(action) => {
                    &&& action.prev == Some(c.0.id)
                    &&& (match final(self).current_thread {
                        Some(n) => n.0.id == action.next && n.0.state is Running,
                        None => false,
                    })
                    &&& old(self).scheduler.contents().count(action.next) > 0
                    &&& final(self).scheduler.contents() == old(self).scheduler.contents().remove(action.next).insert(c.0.id)
                    &&& final(self).irq_save_ctx == Some(action.next)
                    &&& final(self).irq_load_ctx == Some(action.next)
                },
                None => (match final(self).current_thread {
                    Some(n) => n.0.id == c.0.id,
                    None => false,
                }) && final(self).scheduler.contents() == old(self).scheduler.contents(),
            })),
    {
        if !self.is_initialized() {
            return None;
        }
        let mut current = match self.current_thread.take() {
            Some(c) => c,
            None => {
                return None;
            },
        };
        match self.scheduler.on_tick(&mut current, now) {
            None => {
                self.current_thread = Some(current);
                None
            },
            Some(next) => {
                let prev_id = current.id();
                let ready = current.stop_running();
                self.scheduler.enqueue(ready);
                let next_id = next.id();
                let running = next.start_running(now);
                self.current_thread = Some(running);
                self.irq_save_ctx = Some(next_id);
                self.irq_load_ctx = Some(next_id);
                proof {
                    lemma_parked_excluded(
                        old(self).finished_threads@,
                        old(self).scheduler.contents(),
                        Some(prev_id),
                        next_id,
                    );
                }
                Some(SwitchAction { prev: Some(prev_id), next: next_id })
            },
        }
    }

    /// Round-robin on every timer interrupt: unconditionally re-queue the
    /// interrupted thread and switch to the next pick; with an empty CPU
    /// slot, start whatever is ready.
    pub fn handle_timer_interrupt(&mut self, now: Instant) -> (r: Option<SwitchAction>)
        requires
            old(self).wf(),
        ensures
            final(self).wf(),
            final(self).finished_threads == old(self).finished_threads,
            final(self).next_thread_id@ == old(self).next_thread_id@,
            final(self).initialized@ == old(self).initialized@,
            !old(self).initialized@ ==> r is None && *final(self) == *old(self),
            old(self).initialized@ ==> (old(self).current_thread matches Some(c) ==> (match r {
                Some(action) => {
                    &&& action.prev == Some(c.0.id)
                    &&& (match final(self).current_thread {
                        Some(n) => n.0.id == action.next && n.0.state is Running,
                        None => false,
                    })
                    &&& old(self).scheduler.contents().insert(c.0.id).count(action.next) > 0
                    &&& final(self).scheduler.contents() == old(self).scheduler.contents().insert(c.0.id).remove(action.next)
                },
                None => false,
            })),
            old(self).initialized@ && old(self).current_thread is None ==> (match r {
                Some(action) => {
                    &&& action.prev is None
                    &&& (match final(self).current_thread {
                        Some(n) => n.0.id == action.next && n.0.state is Running,
                        None => false,
                    })
                    &&& old(self).scheduler.contents().count(action.next) > 0
                    &&& final(self).scheduler.contents() == old(self).scheduler.contents().remove(action.next)
                },
                None => final(self).current_thread is None && old(self).scheduler.contents() == vstd::multiset::Multiset::<ThreadId>::empty() && final(self).scheduler.contents() == old(self).scheduler.contents() && final(self).irq_save_ctx == old(self).irq_save_ctx && final(self).irq_load_ctx == old(self).irq_load_ctx,
            }),
    {
        if !self.is_initialized() {
            return None;
        }
        match self.current_thread.take() {
            Some(current) => {
                let prev_id = current.id();
                let ready = current.stop_running();
                self.scheduler.enqueue(ready);
                match self.scheduler.pick_next(0) {
                    None => {
                        // The interrupted thread was just re-queued, so the
                        // scheduler cannot have come back empty.
                        proof {
                            assert(old(self).scheduler.contents().insert(prev_id).count(prev_id)
                                > 0);
                            assert(false);
                        }
                        None
                    },
                    Some(next) => {
                        let next_id = next.id();
                        let running = next.start_running(now);
                        self.current_thread = Some(running);
                        self.irq_save_ctx = Some(next_id);
                        self.irq_load_ctx = Some(next_id);
                        proof {
                            lemma_parked_excluded(
                                old(self).finished_threads@,
                                old(self).scheduler.contents(),
                                Some(prev_id),
                                next_id,
                            );
                        }
                        Some(SwitchAction { prev: Some(prev_id), next: next_id })
                    },
                }
            },
            None => {
                match self.scheduler.pick_next(0) {
                    None => None,
                    Some(next) => {
                        let next_id = next.id();
                        let running = next.start_running(now);
                        self.current_thread = Some(running);
                        self.irq_save_ctx = Some(next_id);
                        self.irq_load_ctx = Some(next_id);
                        proof {
                            lemma_parked_excluded(
                                old(self).finished_threads@,
                                old(self).scheduler.contents(),
                                None,
                                next_id,
                            );
                        }
                        Some(SwitchAction { prev: None, next: next_id })
                    },
                }
            },
        }
    }

    /// The current thread's entry function has returned: publish its join
    /// result, mark it finished, park its record, and hand the CPU to the
    /// next ready thread if there is one.
    pub fn finish_current(&mut self, now: Instant) -> (r: Option<SwitchAction>)
        requires
            old(self).wf(),
        ensures
            final(self).wf(),
            final(self).next_thread_id@ == old(self).next_thread_id@,
            final(self).initialized@ == old(self).initialized@,
            old(self).current_thread is None ==> r is None && *final(self) == *old(self),
            old(self).current_thread matches Some(c) ==> {
                &&& final(self).finished_threads@ == old(self).finished_threads@.push(finished(c.0))
                &&& final(self).parked_finished(c.0.id)
                &&& (match r {
                    Some(action) => {
                        &&& action.prev is None
                        &&& (match final(self).current_thread {
                            Some(n) => n.0.id == action.next && n.0.state is Running,
                            None => false,
                        })
                        &&& old(self).scheduler.contents().count(action.next) > 0
                        &&& final(self).scheduler.contents() == old(self).scheduler.contents().remove(action.next)
                    },
                    None => final(self).current_thread is None && old(self).scheduler.contents() == vstd::multiset::Multiset::<ThreadId>::empty() && final(self).scheduler.contents() == old(self).scheduler.contents(),
                })
            },
    {
        let current = match self.current_thread.take() {
            Some(c) => c,
            None => {
                return None;
            },
        };
        let ghost c = current;
        let done = current.finish();
        self.finished_threads.push(done);
        proof {
            assert forall|j: int| 0 <= j < old(self).finished_threads@.len() implies (#[trigger]
                old(self).finished_threads@[j]).id != c.0.id by {
                lemma_thread_ids_at(old(self).finished_threads@, j);
            };
            let n = old(self).finished_threads@.len() as int;
            assert(self.finished_threads@[n] == finished(c.0));
            assert(self.parked_finished(c.0.id));
        }
        match self.scheduler.pick_next(0) {
            None => {
                self.irq_save_ctx = None;
                self.irq_load_ctx = None;
                None
            },
            Some(next) => {
                let next_id = next.id();
                let running = next.start_running(now);
                self.current_thread = Some(running);
                self.irq_save_ctx = Some(next_id);
                self.irq_load_ctx = Some(next_id);
                proof {
                    assert(!self.parked_ids().contains(next_id)) by {
                        if thread_ids(self.finished_threads@).contains(next_id) {
                            let j = choose|j: int|
                                0 <= j < thread_ids(self.finished_threads@).len() && thread_ids(
                                    self.finished_threads@,
                                )[j] == next_id;
                            lemma_thread_ids_at(self.finished_threads@, j);
                        }
                    };
                }
                Some(SwitchAction { prev: None, next: next_id })
            },
        }
    }

    /// Poll whether the thread a handle names has finished.
    ///
    /// Returns `None` while the thread is still live.  The first poll that
    /// finds it finished delivers `Some(Ok(()))` — a finished thread always
    /// has its join result published before its state reads Finished — and
    /// marks the result as delivered; every later join on the same identity
    /// reports that it was already joined.
    pub fn try_join(&mut self, handle: &JoinHandle) -> (r: Option<Result<(), JoinError>>)
        requires
            old(self).wf(),
        ensures
            final(self).wf(),
            (r is Some) == old(self).parked_finished(handle.thread_id),
            !old(self).parked_finished(handle.thread_id) ==> r is None && *final(self) == *old(self),
            old(self).parked_finished(handle.thread_id) && !old(self).parked_joined(handle.thread_id) ==> r == Some(Ok::<(), JoinError>(())) && final(self).parked_joined(handle.thread_id),
            old(self).parked_finished(handle.thread_id) && old(self).parked_joined(handle.thread_id) ==> r == Some(Err::<(), JoinError>(JoinError::AlreadyJoined)) && *final(self) == *old(self),
            final(self).scheduler == old(self).scheduler,
            final(self).current_thread == old(self).current_thread,
            final(self).stack_pool == old(self).stack_pool,
            final(self).next_thread_id@ == old(self).next_thread_id@,
            final(self).initialized@ == old(self).initialized@,
            final(self).irq_save_ctx == old(self).irq_save_ctx,
            final(self).irq_load_ctx == old(self).irq_load_ctx,
            final(self).finished_threads@.len() == old(self).finished_threads@.len(),
            forall|i: int|
                0 <= i < old(self).finished_threads@.len() ==> {
                    &&& (#[trigger] final(self).finished_threads@[i]).id == old(self).finished_threads@[i].id
                    &&& final(self).finished_threads@[i].state == old(self).finished_threads@[i].state
                    &&& final(self).finished_threads@[i].join_result == old(self).finished_threads@[i].join_result
                },
    {
        let n = self.finished_threads.len();
        let mut i: usize = 0;
        while i < n
            invariant
                n == self.finished_threads@.len(),
                0 <= i <= n,
                self.wf(),
                *self == *old(self),
                forall|j: int|
                    0 <= j < i ==> (#[trigger] self.finished_threads@[j]).id != handle.thread_id,
            decreases n - i,
        {
            if self.finished_threads[i].id.0 == handle.thread_id.0 {
                let is_finished = match self.finished_threads[i].state {
                    ThreadState::Finished => true,
                    _ => false,
                };
                if !is_finished {
                    proof {
                        assert(!self.parked_finished(handle.thread_id)) by {
                            if self.parked_finished(handle.thread_id) {
                                let j = choose|j: int|
                                    0 <= j < self.finished_threads@.len() && (#[trigger]
                                    self.finished_threads@[j]).id == handle.thread_id
                                        && self.finished_threads@[j].state is Finished;
                                assert(j != i as int);
                                assert(self.finished_threads@[i as int].id == handle.thread_id);
                            }
                        };
                    }
                    return None;
                }
                if self.finished_threads[i].joined {
                    proof {
                        assert(self.finished_threads@[i as int].id == handle.thread_id);
                        assert(self.parked_finished(handle.thread_id));
                        assert(self.parked_joined(handle.thread_id));
                    }
                    return Some(Err(JoinError::AlreadyJoined));
                }
                proof {
                    assert(self.finished_threads@[i as int].id == handle.thread_id);
                    assert(self.parked_finished(handle.thread_id));
                    assert(!self.parked_joined(handle.thread_id)) by {
                        if self.parked_joined(handle.thread_id) {
                            let j = choose|j: int|
                                0 <= j < self.finished_threads@.len() && (#[trigger]
                                self.finished_threads@[j]).id == handle.thread_id
                                    && self.finished_threads@[j].state is Finished
                                    && self.finished_threads@[j].joined;
                            assert(j != i as int);
                        }
                    };
                }
                let mut record = self.finished_threads.remove(i);
                record.joined = true;
                self.finished_threads.insert(i, record);
                proof {
                    assert(self.finished_threads@ =~= old(self).finished_threads@.update(
                        i as int,
                        record,
                    ));
                    assert(self.finished_threads@[i as int] == record);
                    assert(self.parked_joined(handle.thread_id));
                    assert forall|k: int| 0 <= k < self.parked_ids().len() implies
                        self.parked_ids()[k] == old(self).parked_ids()[k] by {
                        lemma_thread_ids_at(self.finished_threads@, k);
                        lemma_thread_ids_at(old(self).finished_threads@, k);
                    };
                    assert(self.parked_ids() =~= old(self).parked_ids());
                }
                return Some(Ok(()));
            }
            i = i + 1;
        }
        proof {
            assert(!self.parked_finished(handle.thread_id)) by {
                if self.parked_finished(handle.thread_id) {
                    let j = choose|j: int|
                        0 <= j < self.finished_threads@.len() && (#[trigger]
                        self.finished_threads@[j]).id == handle.thread_id
                            && self.finished_threads@[j].state is Finished;
                    assert(false);
                }
            };
        }
        None
    }

    /// Whether the thread a handle names is still live (not yet finished).
    pub fn is_alive(&self, handle: &JoinHandle) -> (r: bool)
        requires
            self.wf(),
        ensures
            r == !self.parked_finished(handle.thread_id),
    {
        let n = self.finished_threads.len();
        let mut i: usize = 0;
        while i < n
            invariant
                n == self.finished_threads@.len(),
                0 <= i <= n,
                self.wf(),
                forall|j: int|
                    0 <= j < i ==> !((#[trigger] self.finished_threads@[j]).id == handle.thread_id
                        && self.finished_threads@[j].state is Finished),
            decreases n - i,
        {
            if self.finished_threads[i].id.0 == handle.thread_id.0 {
                match self.finished_threads[i].state {
                    ThreadState::Finished => {
                        proof {
                            assert(self.finished_threads@[i as int].id == handle.thread_id);
                            assert(self.parked_finished(handle.thread_id));
                        }
                        return false;
                    },
                    _ => {},
                }
            }
            i = i + 1;
        }
        true
    }
}

/// Every context the kernel can hand to the context-switch substrate is
/// loadable: the thread on the CPU has a non-zero resume address and a
/// 16-byte aligned stack pointer, as the substrate's contract demands.
pub proof fn lemma_current_context_loadable<A: Arch, S: Scheduler>(k: &Kernel<A, S>)
    requires
        k.wf(),
    ensures
        (match k.current_thread {
            Some(c) => crate::arch::aarch64::context_loadable(&c.0.context),
            None => true,
        }),
{
}

/// At most one thread is Running per CPU: every record the kernel has
/// parked is Blocked or Finished, never Running, so the CPU slot holds the
/// only Running thread the kernel knows.
pub proof fn lemma_parked_never_running<A: Arch, S: Scheduler>(k: &Kernel<A, S>)
    requires
        k.wf(),
    ensures
        forall|i: int|
            0 <= i < k.finished_threads@.len() ==> !((#[trigger] k.finished_threads@[i]).state
                is Running),
        (match k.current_thread {
            Some(c) => c.0.state is Running,
            None => true,
        }),
{
}

/// A thread is never in two scheduler queues at once, and the thread taken
/// from a queue onto the CPU is no longer queued anywhere.
pub proof fn lemma_no_double_queue<A: Arch, S: Scheduler>(k: &Kernel<A, S>)
    requires
        k.wf(),
    ensures
        forall|id: ThreadId| #[trigger] k.scheduler.contents().count(id) <= 1,
        (match k.current_thread {
            Some(c) => k.scheduler.contents().count(c.0.id) == 0,
            None => true,
        }),
{
}

/// The published IRQ save/load context pointers, when set, name the context
/// buffer of the one thread whose state is Running.
pub proof fn lemma_irq_ctx_running<A: Arch, S: Scheduler>(k: &Kernel<A, S>)
    requires
        k.wf(),
    ensures
        (match k.irq_save_ctx {
            Some(id) => (match k.current_thread {
                Some(c) => c.0.id == id && c.0.state is Running,
                None => false,
            }),
            None => true,
        }),
        (match k.irq_load_ctx {
            Some(id) => (match k.current_thread {
                Some(c) => c.0.id == id && c.0.state is Running,
                None => false,
            }),
            None => true,
        }),
{
}

/// Any parked thread whose state reads Finished carries its published join
/// result: the result slot is filled before the state write.
pub proof fn lemma_finished_is_joinable<A: Arch, S: Scheduler>(k: &Kernel<A, S>)
    requires
        k.wf(),
    ensures
        forall|i: int|
            0 <= i < k.finished_threads@.len() && (#[trigger] k.finished_threads@[i]).state
                is Finished ==> k.finished_threads@[i].join_result is Some,
{
}

} // verus!
