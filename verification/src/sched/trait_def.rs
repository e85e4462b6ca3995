//! The scheduler interface and its contract.

use vstd::prelude::*;
use vstd::multiset::Multiset;
use crate::thread::{ReadyRef, RunningRef, Thread, ThreadId, blocked, stopped};
use crate::time::Instant;

verus! {

/// CPU identifier type.
pub type CpuId = usize;

/// Two thread records that differ at most in their time-slice accounting.
pub open spec fn eq_mod_time_slice(a: Thread, b: Thread) -> bool {
    b == (Thread { time_slice: b.time_slice, ..a })
}

/// The interface every scheduler implementation provides.
///
/// A scheduler owns a bag of ready threads; `contents` abstracts it as the
/// multiset of their identities.  Enqueuing adds exactly one identity,
/// picking removes exactly the identity of the thread handed out, and a tick
/// either leaves the bag alone or removes the replacement it returns.
pub trait Scheduler: Sized {
    /// The identities of the threads currently queued.
    spec fn contents(&self) -> Multiset<ThreadId>;

    /// The full records of the threads currently queued.
    spec fn queued_records(&self) -> Multiset<Thread>;

    /// Whether the implementation's preemption policy, applied to this
    /// scheduler state and the given running thread at `now`, calls for a
    /// replacement on a tick.
    spec fn tick_replaces(&self, current: Thread, now: Instant) -> bool;

    /// The scheduler's internal well-formedness.
    spec fn sched_wf(&self) -> bool;

    /// Enqueue a thread that is ready to run.
    fn enqueue(&mut self, thread: ReadyRef)
        requires
            old(self).sched_wf(),
            thread.wf(),
        ensures
            final(self).sched_wf(),
            final(self).contents() == old(self).contents().insert(thread.0.id),
            final(self).queued_records() == old(self).queued_records().insert(thread.0),
    ;

    /// Take the next thread to run on the given CPU, or `None` when no
    /// thread is ready there.
    ///
    /// CPU 0 always exists, so a pick for it comes back empty only when the
    /// scheduler holds no thread at all.
    fn pick_next(&mut self, cpu_id: CpuId) -> (r: Option<ReadyRef>)
        requires
            old(self).sched_wf(),
        ensures
            final(self).sched_wf(),
            (match r {
                Some(t) => t.wf() && old(self).contents().count(t.0.id) > 0 && final(self).contents()
                    == old(self).contents().remove(t.0.id) && old(self).queued_records().count(t.0)
                    > 0 && final(self).queued_records() == old(self).queued_records().remove(t.0),
                None => final(self).contents() == old(self).contents() && final(self).queued_records() == old(self).queued_records(),
            }),
            (r is None && cpu_id == 0) ==> old(self).contents() == Multiset::<ThreadId>::empty(),
    ;

    /// Handle a timer tick for the running thread: update its accounting and
    /// return a replacement exactly when the preemption policy calls for one.
    fn on_tick(&mut self, current: &mut RunningRef, now: Instant) -> (r: Option<ReadyRef>)
        requires
            old(self).sched_wf(),
            old(current).wf(),
        ensures
            final(self).sched_wf(),
            final(current).wf(),
            eq_mod_time_slice(old(current).0, final(current).0),
            (r is Some) == old(self).tick_replaces(old(current).0, now),
            (match r {
                Some(t) => t.wf() && old(self).contents().count(t.0.id) > 0 && final(self).contents()
                    == old(self).contents().remove(t.0.id) && old(self).queued_records().count(t.0)
                    > 0 && final(self).queued_records() == old(self).queued_records().remove(t.0),
                None => final(self).contents() == old(self).contents() && final(self).queued_records() == old(self).queued_records(),
            }),
    ;

    /// Handle a voluntary yield: the thread goes to the back of its queue.
    fn on_yield(&mut self, current: RunningRef)
        requires
            old(self).sched_wf(),
            current.wf(),
        ensures
            final(self).sched_wf(),
            final(self).contents() == old(self).contents().insert(current.0.id),
            final(self).queued_records() == old(self).queued_records().insert(stopped(current.0)),
    ;

    /// Handle a thread blocking: it is not re-queued; the blocked record is
    /// handed back for parking.
    fn on_block(&mut self, current: RunningRef) -> (t: Thread)
        requires
            old(self).sched_wf(),
            current.wf(),
        ensures
            final(self).sched_wf(),
            final(self).contents() == old(self).contents(),
            final(self).queued_records() == old(self).queued_records(),
            t == blocked(current.0),
    ;

    /// Wake up a blocked thread (same as enqueue).
    fn wake_up(&mut self, thread: ReadyRef)
        requires
            old(self).sched_wf(),
            thread.wf(),
        ensures
            final(self).sched_wf(),
            final(self).contents() == old(self).contents().insert(thread.0.id),
            final(self).queued_records() == old(self).queued_records().insert(thread.0),
    ;

    /// Update the scheduling priority of the given thread; effective no
    /// later than its next enqueue.
    fn set_priority(&mut self, thread_id: ThreadId, priority: u8)
        requires
            old(self).sched_wf(),
        ensures
            final(self).sched_wf(),
            final(self).contents() == old(self).contents(),
            final(self).queued_records() == old(self).queued_records(),
    ;

    /// Scheduler statistics: (total, runnable, blocked) thread counts.
    fn stats(&self) -> (r: (usize, usize, usize))
        requires
            self.sched_wf(),
    ;
}

} // verus!
