//! Round-robin scheduler with per-class FIFO queues, and the first-come
//! first-serve variant used for bring-up and deterministic tests.

use vstd::prelude::*;
use vstd::multiset::Multiset;
use super::trait_def::{CpuId, Scheduler};
use crate::sync::AtomicUsizeCell;
use crate::thread::{ReadyRef, RunningRef, Thread, ThreadId};
use crate::time::Instant;

verus! {

/// The identities of the threads in a queue, in queue order.
pub open spec fn ids_of(s: Seq<ReadyRef>) -> Seq<ThreadId> {
    s.map_values(|r: ReadyRef| r.0.id)
}

/// The identities of the threads in a queue, as a bag.
pub open spec fn queue_ids(s: Seq<ReadyRef>) -> Multiset<ThreadId> {
    ids_of(s).to_multiset()
}

/// Every thread in a queue is well formed.
pub open spec fn queue_wf(s: Seq<ReadyRef>) -> bool {
    forall|i: int| 0 <= i < s.len() ==> (#[trigger] s[i]).wf()
}

/// The full thread records in a queue, in queue order.
pub open spec fn records_of(s: Seq<ReadyRef>) -> Seq<Thread> {
    s.map_values(|r: ReadyRef| r.0)
}

/// The full thread records in a queue, as a bag.
pub open spec fn queue_records(s: Seq<ReadyRef>) -> Multiset<Thread> {
    records_of(s).to_multiset()
}

proof fn lemma_queue_records_push(s: Seq<ReadyRef>, t: ReadyRef)
    ensures
        queue_records(s.push(t)) == queue_records(s).insert(t.0),
{
    broadcast use vstd::seq_lib::group_to_multiset_ensures;

    assert(records_of(s.push(t)) =~= records_of(s).push(t.0));
}

proof fn lemma_queue_records_remove0(s: Seq<ReadyRef>)
    requires
        s.len() > 0,
    ensures
        queue_records(s.remove(0)) == queue_records(s).remove(s[0].0),
        queue_records(s).count(s[0].0) > 0,
{
    broadcast use vstd::seq_lib::group_to_multiset_ensures;

    assert(records_of(s.remove(0)) =~= records_of(s).remove(0));
    assert(records_of(s)[0] == s[0].0);
    assert(records_of(s).contains(records_of(s)[0]));
}

proof fn lemma_queue_ids_push(s: Seq<ReadyRef>, t: ReadyRef)
    ensures
        queue_ids(s.push(t)) == queue_ids(s).insert(t.0.id),
{
    broadcast use vstd::seq_lib::group_to_multiset_ensures;

    assert(ids_of(s.push(t)) =~= ids_of(s).push(t.0.id));
}

proof fn lemma_queue_ids_remove0(s: Seq<ReadyRef>)
    requires
        s.len() > 0,
    ensures
        queue_ids(s.remove(0)) == queue_ids(s).remove(s[0].0.id),
        queue_ids(s).count(s[0].0.id) > 0,
{
    broadcast use vstd::seq_lib::group_to_multiset_ensures;

    assert(ids_of(s.remove(0)) =~= ids_of(s).remove(0));
    assert(ids_of(s)[0] == s[0].0.id);
    assert(ids_of(s).contains(ids_of(s)[0]));
}

proof fn lemma_queue_wf_push(s: Seq<ReadyRef>, t: ReadyRef)
    requires
        queue_wf(s),
        t.wf(),
    ensures
        queue_wf(s.push(t)),
{
    assert forall|i: int| 0 <= i < s.push(t).len() implies (#[trigger] s.push(t)[i]).wf() by {
        if i < s.len() {
            assert(s.push(t)[i] == s[i]);
        } else {
            assert(s.push(t)[i] == t);
        }
    }
}

proof fn lemma_queue_wf_remove0(s: Seq<ReadyRef>)
    requires
        queue_wf(s),
        s.len() > 0,
    ensures
        queue_wf(s.remove(0)),
        s[0].wf(),
{
    assert forall|i: int| 0 <= i < s.remove(0).len() implies (#[trigger] s.remove(0)[i]).wf() by {
        assert(s.remove(0)[i] == s[i + 1]);
    }
}

/// A FIFO queue of ready threads.
///
/// The lock-free multi-producer queue of the target is replaced by plain
/// owned storage: on a single CPU with interrupts masked around scheduler
/// entry, exclusive access is exactly what the locking discipline provides.
pub struct ReadyQueue {
    pub items: Vec<ReadyRef>,
}

impl View for ReadyQueue {
    type V = Seq<ReadyRef>;

    open spec fn view(&self) -> Seq<ReadyRef> {
        self.items@
    }
}

impl ReadyQueue {
    /// An empty queue.
    pub fn new() -> (r: Self)
        ensures
            r@ == Seq::<ReadyRef>::empty(),
    {
        ReadyQueue { items: Vec::new() }
    }

    /// Append a thread at the back.
    pub fn push(&mut self, thread: ReadyRef)
        ensures
            final(self)@ == old(self)@.push(thread),
    {
        self.items.push(thread);
    }

    /// Take the thread at the front, if any.
    pub fn try_pop(&mut self) -> (r: Option<ReadyRef>)
        ensures
            (match r {
                Some(t) => old(self)@.len() > 0 && t == old(self)@[0] && final(self)@ == old(self)@.remove(0),
                None => old(self)@.len() == 0 && final(self)@ == old(self)@,
            }),
    {
        if self.items.len() == 0 {
            None
        } else {
            Some(self.items.remove(0))
        }
    }

    /// Number of queued threads.
    pub fn len(&self) -> (r: usize)
        ensures
            r == self@.len(),
    {
        self.items.len()
    }

    /// Whether the queue is empty.
    pub fn is_empty(&self) -> (r: bool)
        ensures
            r == (self@.len() == 0),
    {
        self.items.len() == 0
    }
}

/// The four coarse priority classes derived from the 0-255 priority.
#[derive(Debug, Clone, Copy, PartialEq, Eq, Structural)]
pub enum PriorityLevel {
    Idle,
    Low,
    Normal,
    High,
}

/// The class a priority value belongs to: 0 is Idle, 1-63 Low, 64-191
/// Normal, and 192-255 High.
pub open spec fn level_for(priority: u8) -> PriorityLevel {
    if priority == 0 {
        PriorityLevel::Idle
    } else if priority <= 63 {
        PriorityLevel::Low
    } else if priority <= 191 {
        PriorityLevel::Normal
    } else {
        PriorityLevel::High
    }
}

/// The run queue of one CPU, with one FIFO queue per priority class.
pub struct CpuRunQueue {
    pub high_priority: ReadyQueue,
    pub normal_priority: ReadyQueue,
    pub low_priority: ReadyQueue,
    pub idle_priority: ReadyQueue,
    pub thread_count: AtomicUsizeCell,
}

impl CpuRunQueue {
    /// An empty run queue.
    pub fn new() -> (r: Self)
        ensures
            r.high_priority@ == Seq::<ReadyRef>::empty(),
            r.normal_priority@ == Seq::<ReadyRef>::empty(),
            r.low_priority@ == Seq::<ReadyRef>::empty(),
            r.idle_priority@ == Seq::<ReadyRef>::empty(),
            r.thread_count@ == 0,
    {
        CpuRunQueue {
            high_priority: ReadyQueue::new(),
            normal_priority: ReadyQueue::new(),
            low_priority: ReadyQueue::new(),
            idle_priority: ReadyQueue::new(),
            thread_count: AtomicUsizeCell::new(0),
        }
    }
}

/// Round-robin scheduler with priority classes.
///
/// The target has a single CPU, so one set of class queues serves every
/// caller; `num_cpus` only bounds the CPU identifiers that `pick_next`
/// accepts.
pub struct RoundRobinScheduler {
    pub num_cpus: usize,
    pub run_queue: CpuRunQueue,
    pub total_threads: AtomicUsizeCell,
    pub runnable_threads: AtomicUsizeCell,
}

impl RoundRobinScheduler {
    /// The queue of one priority class.
    pub open spec fn class_queue(&self, l: PriorityLevel) -> Seq<ReadyRef> {
        match l {
            PriorityLevel::High => self.run_queue.high_priority@,
            PriorityLevel::Normal => self.run_queue.normal_priority@,
            PriorityLevel::Low => self.run_queue.low_priority@,
            PriorityLevel::Idle => self.run_queue.idle_priority@,
        }
    }

    /// All ready threads in the order `pick_next` serves them: High before
    /// Normal before Low before Idle, FIFO within each class.
    pub open spec fn pick_order(&self) -> Seq<ReadyRef> {
        self.run_queue.high_priority@ + (self.run_queue.normal_priority@ + (
        self.run_queue.low_priority@ + self.run_queue.idle_priority@))
    }

    /// Create a new round-robin scheduler for the given number of CPUs.
    pub fn new(num_cpus: usize) -> (r: Self)
        requires
            num_cpus >= 1,
        ensures
            r.sched_wf(),
            r.num_cpus == num_cpus,
            r.pick_order() == Seq::<ReadyRef>::empty(),
            r.total_threads@ == 0,
            r.runnable_threads@ == 0,
    {
        let r = RoundRobinScheduler {
            num_cpus,
            run_queue: CpuRunQueue::new(),
            total_threads: AtomicUsizeCell::new(0),
            runnable_threads: AtomicUsizeCell::new(0),
        };
        proof {
            assert(r.pick_order() =~= Seq::<ReadyRef>::empty());
        }
        r
    }

    /// Map a priority value to its coarse class.
    pub fn priority_level(priority: u8) -> (r: PriorityLevel)
        ensures
            r == level_for(priority),
    {
        if priority == 0 {
            PriorityLevel::Idle
        } else if priority <= 63 {
            PriorityLevel::Low
        } else if priority <= 191 {
            PriorityLevel::Normal
        } else {
            PriorityLevel::High
        }
    }

    /// Pop the head of the highest non-empty class among High and, when the
    /// flags allow, Normal and Low.  This is the candidate search shared by
    /// `pick_next` and the preemption policy.
    fn pop_candidate(&mut self, allow_normal: bool, allow_low: bool) -> (r: Option<ReadyRef>)
        requires
            old(self).sched_wf(),
        ensures
            final(self).sched_wf(),
            final(self).num_cpus == old(self).num_cpus,
            (match candidate_class(old(self), allow_normal, allow_low) {
                Some(c) => (match r {
                    Some(t) => t == old(self).class_queue(c)[0] && t.wf() && final(self).class_queue(c)
                        == old(self).class_queue(c).remove(0) && (forall|l: PriorityLevel|
                        l != c ==> final(self).class_queue(l) == old(self).class_queue(l)),
                    None => false,
                }),
                None => r is None && (forall|l: PriorityLevel|
                    final(self).class_queue(l) == old(self).class_queue(l)),
            }),
            (match r {
                Some(t) => old(self).contents().count(t.0.id) > 0 && final(self).contents() == old(self).contents().remove(t.0.id) && old(self).queued_records().count(t.0) > 0 && final(self).queued_records() == old(self).queued_records().remove(t.0),
                None => final(self).contents() == old(self).contents() && final(self).queued_records() == old(self).queued_records(),
            }),
    {
        if let Some(t) = self.run_queue.high_priority.try_pop() {
            proof {
                lemma_queue_wf_remove0(old(self).run_queue.high_priority@);
                lemma_queue_ids_remove0(old(self).run_queue.high_priority@);
                lemma_queue_records_remove0(old(self).run_queue.high_priority@);
                assert(self.contents() =~= old(self).contents().remove(t.0.id));
                assert(self.queued_records() =~= old(self).queued_records().remove(t.0));
            }
            return Some(t);
        }
        if allow_normal {
            if let Some(t) = self.run_queue.normal_priority.try_pop() {
                proof {
                    lemma_queue_wf_remove0(old(self).run_queue.normal_priority@);
                    lemma_queue_ids_remove0(old(self).run_queue.normal_priority@);
                    lemma_queue_records_remove0(old(self).run_queue.normal_priority@);
                    assert(self.contents() =~= old(self).contents().remove(t.0.id));
                    assert(self.queued_records() =~= old(self).queued_records().remove(t.0));
                assert(self.queued_records() =~= old(self).queued_records().remove(t.0));
                }
                return Some(t);
            }
        }
        if allow_low {
            if let Some(t) = self.run_queue.low_priority.try_pop() {
                proof {
                    lemma_queue_wf_remove0(old(self).run_queue.low_priority@);
                    lemma_queue_ids_remove0(old(self).run_queue.low_priority@);
                    lemma_queue_records_remove0(old(self).run_queue.low_priority@);
                    assert(self.contents() =~= old(self).contents().remove(t.0.id));
                    assert(self.queued_records() =~= old(self).queued_records().remove(t.0));
                assert(self.queued_records() =~= old(self).queued_records().remove(t.0));
                }
                return Some(t);
            }
        }
        None
    }
}

/// The class from which a candidate search with the given flags takes its
/// thread, if any class it may draw from is non-empty.
pub open spec fn candidate_class(
    s: &RoundRobinScheduler,
    allow_normal: bool,
    allow_low: bool,
) -> Option<PriorityLevel> {
    if s.class_queue(PriorityLevel::High).len() > 0 {
        Some(PriorityLevel::High)
    } else if allow_normal && s.class_queue(PriorityLevel::Normal).len() > 0 {
        Some(PriorityLevel::Normal)
    } else if allow_low && s.class_queue(PriorityLevel::Low).len() > 0 {
        Some(PriorityLevel::Low)
    } else {
        None
    }
}

impl Scheduler for RoundRobinScheduler {
    open spec fn contents(&self) -> Multiset<ThreadId> {
        queue_ids(self.run_queue.high_priority@).add(queue_ids(self.run_queue.normal_priority@)).add(
            queue_ids(self.run_queue.low_priority@),
        ).add(queue_ids(self.run_queue.idle_priority@))
    }

    open spec fn queued_records(&self) -> Multiset<Thread> {
        queue_records(self.run_queue.high_priority@).add(
            queue_records(self.run_queue.normal_priority@),
        ).add(queue_records(self.run_queue.low_priority@)).add(
            queue_records(self.run_queue.idle_priority@),
        )
    }

    /// Preempt on a tick exactly when the running thread's quantum has
    /// expired and a class its priority must cede to is non-empty.
    open spec fn tick_replaces(&self, current: Thread, now: Instant) -> bool {
        crate::time::slice_expired(current.time_slice, now) && (candidate_class(
            self,
            tick_allows_normal(current.priority),
            tick_allows_low(current.priority),
        ) is Some)
    }

    open spec fn sched_wf(&self) -> bool {
        &&& self.num_cpus >= 1
        &&& queue_wf(self.run_queue.high_priority@)
        &&& queue_wf(self.run_queue.normal_priority@)
        &&& queue_wf(self.run_queue.low_priority@)
        &&& queue_wf(self.run_queue.idle_priority@)
    }

    /// Enqueue into the FIFO queue of the thread's priority class.
    fn enqueue(&mut self, thread: ReadyRef)
        ensures
            final(self).num_cpus == old(self).num_cpus,
            final(self).class_queue(level_for(thread.0.priority)) == old(self).class_queue(
                level_for(thread.0.priority),
            ).push(thread),
            forall|l: PriorityLevel|
                l != level_for(thread.0.priority) ==> final(self).class_queue(l) == old(self).class_queue(
                    l,
                ),
    {
        let level = Self::priority_level(thread.priority());
        proof {
            let lvl = level_for(thread.0.priority);
            match lvl {
                PriorityLevel::High => {
                    lemma_queue_wf_push(self.run_queue.high_priority@, thread);
                    lemma_queue_ids_push(self.run_queue.high_priority@, thread);
                    lemma_queue_records_push(self.run_queue.high_priority@, thread);
                },
                PriorityLevel::Normal => {
                    lemma_queue_wf_push(self.run_queue.normal_priority@, thread);
                    lemma_queue_ids_push(self.run_queue.normal_priority@, thread);
                    lemma_queue_records_push(self.run_queue.normal_priority@, thread);
                },
                PriorityLevel::Low => {
                    lemma_queue_wf_push(self.run_queue.low_priority@, thread);
                    lemma_queue_ids_push(self.run_queue.low_priority@, thread);
                    lemma_queue_records_push(self.run_queue.low_priority@, thread);
                },
                PriorityLevel::Idle => {
                    lemma_queue_wf_push(self.run_queue.idle_priority@, thread);
                    lemma_queue_ids_push(self.run_queue.idle_priority@, thread);
                    lemma_queue_records_push(self.run_queue.idle_priority@, thread);
                },
            }
        }
        let ghost pre = *self;
        match level {
            PriorityLevel::High => self.run_queue.high_priority.push(thread),
            PriorityLevel::Normal => self.run_queue.normal_priority.push(thread),
            PriorityLevel::Low => self.run_queue.low_priority.push(thread),
            PriorityLevel::Idle => self.run_queue.idle_priority.push(thread),
        }
        proof {
            assert(self.contents() =~= pre.contents().insert(thread.0.id));
            assert(self.queued_records() =~= pre.queued_records().insert(thread.0));
        }
        let _ = self.run_queue.thread_count.fetch_add(1);
        let _ = self.runnable_threads.fetch_add(1);
    }

    /// Take the head of the highest non-empty class: the first thread of the
    /// pick order, FIFO within each class.
    fn pick_next(&mut self, cpu_id: CpuId) -> (r: Option<ReadyRef>)
        ensures
            final(self).num_cpus == old(self).num_cpus,
            cpu_id >= old(self).num_cpus ==> r is None && *final(self) == *old(self),
            cpu_id < old(self).num_cpus ==> (match r {
                Some(t) => old(self).pick_order().len() > 0 && t == old(self).pick_order()[0]
                    && final(self).pick_order() == old(self).pick_order().remove(0),
                None => old(self).pick_order().len() == 0 && final(self).pick_order() == old(self).pick_order(),
            }),
    {
        if cpu_id >= self.num_cpus {
            return None;
        }
        let picked = if let Some(t) = self.run_queue.high_priority.try_pop() {
            proof {
                lemma_queue_wf_remove0(old(self).run_queue.high_priority@);
                lemma_queue_ids_remove0(old(self).run_queue.high_priority@);
                lemma_queue_records_remove0(old(self).run_queue.high_priority@);
                assert(self.contents() =~= old(self).contents().remove(t.0.id));
                assert(self.queued_records() =~= old(self).queued_records().remove(t.0));
                assert(old(self).pick_order()[0] == t);
                assert(self.pick_order() =~= old(self).pick_order().remove(0));
            }
            Some(t)
        } else if let Some(t) = self.run_queue.normal_priority.try_pop() {
            proof {
                lemma_queue_wf_remove0(old(self).run_queue.normal_priority@);
                lemma_queue_ids_remove0(old(self).run_queue.normal_priority@);
                lemma_queue_records_remove0(old(self).run_queue.normal_priority@);
                assert(self.contents() =~= old(self).contents().remove(t.0.id));
                assert(self.queued_records() =~= old(self).queued_records().remove(t.0));
                assert(old(self).pick_order()[0] == t);
                assert(self.pick_order() =~= old(self).pick_order().remove(0));
            }
            Some(t)
        } else if let Some(t) = self.run_queue.low_priority.try_pop() {
            proof {
                lemma_queue_wf_remove0(old(self).run_queue.low_priority@);
                lemma_queue_ids_remove0(old(self).run_queue.low_priority@);
                lemma_queue_records_remove0(old(self).run_queue.low_priority@);
                assert(self.contents() =~= old(self).contents().remove(t.0.id));
                assert(self.queued_records() =~= old(self).queued_records().remove(t.0));
                assert(old(self).pick_order()[0] == t);
                assert(self.pick_order() =~= old(self).pick_order().remove(0));
            }
            Some(t)
        } else if let Some(t) = self.run_queue.idle_priority.try_pop() {
            proof {
                lemma_queue_wf_remove0(old(self).run_queue.idle_priority@);
                lemma_queue_ids_remove0(old(self).run_queue.idle_priority@);
                lemma_queue_records_remove0(old(self).run_queue.idle_priority@);
                assert(self.contents() =~= old(self).contents().remove(t.0.id));
                assert(self.queued_records() =~= old(self).queued_records().remove(t.0));
                assert(old(self).pick_order()[0] == t);
                assert(self.pick_order() =~= old(self).pick_order().remove(0));
            }
            Some(t)
        } else {
            proof {
                broadcast use vstd::seq_lib::group_to_multiset_ensures;

                assert(self.contents() =~= Multiset::<ThreadId>::empty());
            }
            None
        };
        if picked.is_some() {
            let _ = self.run_queue.thread_count.fetch_sub(1);
            let _ = self.runnable_threads.fetch_sub(1);
        }
        picked
    }

    /// Preemption policy on a timer tick.
    ///
    /// The replacement is the head of the highest eligible non-empty class,
    /// and one is sought exactly when the current thread's quantum has
    /// expired: an Idle thread cedes to any higher class, Low to Normal or
    /// High, Normal to High, and an expired High thread admits the next
    /// High candidate.
    fn on_tick(&mut self, current: &mut RunningRef, now: Instant) -> (r: Option<ReadyRef>)
        ensures
            final(self).num_cpus == old(self).num_cpus,
            final(current).0 == (Thread {
                time_slice: crate::time::ts_after_update(old(current).0.time_slice, now),
                ..old(current).0
            }),
            !crate::time::slice_expired(old(current).0.time_slice, now) ==> r is None
                && (forall|l: PriorityLevel|
                final(self).class_queue(l) == old(self).class_queue(l)),
            crate::time::slice_expired(old(current).0.time_slice, now) ==> (match candidate_class(
                old(self),
                tick_allows_normal(old(current).0.priority),
                tick_allows_low(old(current).0.priority),
            ) {
                Some(c) => (match r {
                    Some(t) => t == old(self).class_queue(c)[0] && final(self).class_queue(c) == old(self).class_queue(c).remove(0) && (forall|l: PriorityLevel|
                        l != c ==> final(self).class_queue(l) == old(self).class_queue(l)),
                    None => false,
                }),
                None => r is None && (forall|l: PriorityLevel|
                    final(self).class_queue(l) == old(self).class_queue(l)),
            }),
    {
        let expired = current.should_preempt(now);
        if !expired {
            return None;
        }
        let level = Self::priority_level(current.priority());
        let allow_normal = match level {
            PriorityLevel::Idle => true,
            PriorityLevel::Low => true,
            PriorityLevel::Normal => false,
            PriorityLevel::High => false,
        };
        let allow_low = match level {
            PriorityLevel::Idle => true,
            _ => false,
        };
        let picked = self.pop_candidate(allow_normal, allow_low);
        if picked.is_some() {
            let _ = self.run_queue.thread_count.fetch_sub(1);
            let _ = self.runnable_threads.fetch_sub(1);
        }
        picked
    }

    /// A voluntary yield re-queues the thread at the back of its class.
    fn on_yield(&mut self, current: RunningRef) {
        let ready = current.stop_running();
        self.enqueue(ready);
    }

    /// A blocking thread is not re-queued.
    fn on_block(&mut self, current: RunningRef) -> (t: Thread) {
        current.block()
    }

    /// Waking a thread is the same as enqueuing it.
    fn wake_up(&mut self, thread: ReadyRef) {
        self.enqueue(thread);
    }

    /// Priorities are read from the thread record at enqueue time, so there
    /// is nothing to reorder here.
    fn set_priority(&mut self, thread_id: ThreadId, priority: u8) {
    }

    /// Statistics: (total, runnable, blocked).
    fn stats(&self) -> (r: (usize, usize, usize))
        ensures
            r.0 == self.total_threads@,
            r.1 == self.runnable_threads@,
            r.2 == (if self.total_threads@ >= self.runnable_threads@ {
                self.total_threads@ - self.runnable_threads@
            } else {
                0int
            }),
    {
        let total = self.total_threads.load();
        let runnable = self.runnable_threads.load();
        let blocked_count = if total >= runnable {
            total - runnable
        } else {
            0
        };
        (total, runnable, blocked_count)
    }
}

/// Whether a tick of a thread at this priority may take a Normal candidate.
pub open spec fn tick_allows_normal(priority: u8) -> bool {
    level_for(priority) is Idle || level_for(priority) is Low
}

/// Whether a tick of a thread at this priority may take a Low candidate.
pub open spec fn tick_allows_low(priority: u8) -> bool {
    level_for(priority) is Idle
}

/// Enqueue/dequeue is FIFO within a class.
///
/// `enqueue` appends a thread at the back of its class queue and
/// `pick_next` hands out the head of the pick order and drops it, so after
/// `k` picks the next thread handed out is the `k`-th one that was
/// enqueued: `N` threads of the same priority enqueued in order are
/// returned by `pick_next` in the same order, absent stealing.
pub proof fn lemma_fifo_within_class(queued: Seq<ReadyRef>, k: int)
    requires
        0 <= k < queued.len(),
    ensures
        queued.skip(k)[0] == queued[k],
        queued.skip(k).remove(0) == queued.skip(k + 1),
{
    assert(queued.skip(k).remove(0) =~= queued.skip(k + 1));
}

/// An Idle thread is preempted on the first expired tick after any higher
/// class becomes non-empty: the candidate search of the tick policy always
/// finds a replacement then.
pub proof fn lemma_idle_preempted(s: &RoundRobinScheduler)
    requires
        s.class_queue(PriorityLevel::High).len() > 0 || s.class_queue(PriorityLevel::Normal).len()
            > 0 || s.class_queue(PriorityLevel::Low).len() > 0,
    ensures
        candidate_class(s, true, true) is Some,
{
}

/// While a thread is Running on the CPU, no thread in any ready queue is in
/// state Running: every queued record is Ready, so the CPU slot holds the
/// only Running thread.
pub proof fn lemma_queued_ready(s: &RoundRobinScheduler)
    requires
        s.sched_wf(),
    ensures
        forall|i: int|
            0 <= i < s.pick_order().len() ==> (#[trigger] s.pick_order()[i]).0.state is Ready,
{
    assert forall|i: int| 0 <= i < s.pick_order().len() implies (#[trigger] s.pick_order()[i]).0.state
        is Ready by {
        let h = s.run_queue.high_priority@;
        let n = s.run_queue.normal_priority@;
        let l = s.run_queue.low_priority@;
        let d = s.run_queue.idle_priority@;
        if i < h.len() {
            assert(s.pick_order()[i] == h[i]);
            assert(h[i].wf());
        } else if i < h.len() + n.len() {
            assert(s.pick_order()[i] == n[i - h.len()]);
            assert(n[i - h.len()].wf());
        } else if i < h.len() + n.len() + l.len() {
            assert(s.pick_order()[i] == l[i - h.len() - n.len()]);
            assert(l[i - h.len() - n.len()].wf());
        } else {
            assert(s.pick_order()[i] == d[i - h.len() - n.len() - l.len()]);
            assert(d[i - h.len() - n.len() - l.len()].wf());
        }
    }
}

/// First-come first-serve scheduler: a single FIFO queue, no priorities, no
/// preemption on tick.  Used for bring-up and deterministic tests.
pub struct FirstComeFirstServeScheduler {
    pub num_cpus: usize,
    pub queue: ReadyQueue,
    pub total_threads: AtomicUsizeCell,
    pub runnable_threads: AtomicUsizeCell,
}

impl FirstComeFirstServeScheduler {
    /// Create a new first-come first-serve scheduler.
    pub fn new(num_cpus: usize) -> (r: Self)
        ensures
            r.sched_wf(),
            r.num_cpus == num_cpus,
            r.queue@ == Seq::<ReadyRef>::empty(),
            r.total_threads@ == 0,
            r.runnable_threads@ == 0,
    {
        FirstComeFirstServeScheduler {
            num_cpus,
            queue: ReadyQueue::new(),
            total_threads: AtomicUsizeCell::new(0),
            runnable_threads: AtomicUsizeCell::new(0),
        }
    }
}

impl Scheduler for FirstComeFirstServeScheduler {
    open spec fn contents(&self) -> Multiset<ThreadId> {
        queue_ids(self.queue@)
    }

    open spec fn queued_records(&self) -> Multiset<Thread> {
        queue_records(self.queue@)
    }

    /// First-come first-serve never preempts on a tick.
    open spec fn tick_replaces(&self, current: Thread, now: Instant) -> bool {
        false
    }

    open spec fn sched_wf(&self) -> bool {
        queue_wf(self.queue@)
    }

    /// Append at the back of the single FIFO queue.
    fn enqueue(&mut self, thread: ReadyRef)
        ensures
            final(self).num_cpus == old(self).num_cpus,
            final(self).queue@ == old(self).queue@.push(thread),
    {
        proof {
            lemma_queue_wf_push(self.queue@, thread);
            lemma_queue_ids_push(self.queue@, thread);
            lemma_queue_records_push(self.queue@, thread);
        }
        self.queue.push(thread);
        let _ = self.runnable_threads.fetch_add(1);
    }

    /// Take the thread at the front of the queue, whatever the CPU.
    fn pick_next(&mut self, cpu_id: CpuId) -> (r: Option<ReadyRef>)
        ensures
            final(self).num_cpus == old(self).num_cpus,
            (match r {
                Some(t) => old(self).queue@.len() > 0 && t == old(self).queue@[0] && final(self).queue@
                    == old(self).queue@.remove(0),
                None => old(self).queue@.len() == 0 && final(self).queue@ == old(self).queue@,
            }),
    {
        let picked = self.queue.try_pop();
        proof {
            if old(self).queue@.len() > 0 {
                lemma_queue_wf_remove0(old(self).queue@);
                lemma_queue_ids_remove0(old(self).queue@);
                lemma_queue_records_remove0(old(self).queue@);
            } else {
                broadcast use vstd::seq_lib::group_to_multiset_ensures;

                assert(self.contents() =~= Multiset::<ThreadId>::empty());
            }
        }
        if picked.is_some() {
            let _ = self.runnable_threads.fetch_sub(1);
        }
        picked
    }

    /// First-come first-serve never preempts on a tick.
    fn on_tick(&mut self, current: &mut RunningRef, now: Instant) -> (r: Option<ReadyRef>)
        ensures
            r is None,
            *final(current) == *old(current),
            final(self).queue@ == old(self).queue@,
    {
        None
    }

    fn on_yield(&mut self, current: RunningRef) {
        let ready = current.stop_running();
        self.enqueue(ready);
    }

    fn on_block(&mut self, current: RunningRef) -> (t: Thread) {
        current.block()
    }

    fn wake_up(&mut self, thread: ReadyRef) {
        self.enqueue(thread);
    }

    fn set_priority(&mut self, thread_id: ThreadId, priority: u8) {
    }

    fn stats(&self) -> (r: (usize, usize, usize))
        ensures
            r.0 == self.total_threads@,
            r.1 == self.runnable_threads@,
            r.2 == (if self.total_threads@ >= self.runnable_threads@ {
                self.total_threads@ - self.runnable_threads@
            } else {
                0int
            }),
    {
        let total = self.total_threads.load();
        let runnable = self.runnable_threads.load();
        let blocked_count = if total >= runnable {
            total - runnable
        } else {
            0
        };
        (total, runnable, blocked_count)
    }
}

} // verus!
