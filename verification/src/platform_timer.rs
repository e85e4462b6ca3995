//! Preemption-timer plumbing shared with the interrupt path.
//!
//! The timer interrupt itself only raises a flag; the scheduling decision is
//! made later, outside interrupt context, at a preemption checkpoint.

use vstd::prelude::*;
use crate::sync::{AtomicBoolCell, AtomicU64Cell};

verus! {

/// The pending-preemption flag and the preemption counter that the timer
/// interrupt path shares with the scheduler.
pub struct PreemptionState {
    pub pending: AtomicBoolCell,
    pub count: AtomicU64Cell,
}

impl PreemptionState {
    /// Fresh state: no preemption pending, none counted.
    pub fn new() -> (r: Self)
        ensures
            !r.pending@,
            r.count@ == 0,
    {
        PreemptionState { pending: AtomicBoolCell::new(false), count: AtomicU64Cell::new(0) }
    }

    /// The timer fired: note the pending preemption and count it.
    pub fn set_preemption_pending(&mut self)
        ensures
            final(self).pending@,
            old(self).count@ < u64::MAX ==> final(self).count@ == old(self).count@ + 1,
    {
        self.pending.store(true);
        let _ = self.count.fetch_add(1);
    }

    /// Whether a preemption is pending.
    pub fn is_preemption_pending(&self) -> (r: bool)
        ensures
            r == self.pending@,
    {
        self.pending.load()
    }

    /// Clear the pending-preemption flag.
    pub fn clear_preemption_pending(&mut self)
        ensures
            !final(self).pending@,
            final(self).count@ == old(self).count@,
    {
        self.pending.store(false);
    }

    /// Total preemption count for statistics.
    pub fn get_preemption_count(&self) -> (r: u64)
        ensures
            r == self.count@,
    {
        self.count.load()
    }

    /// Preemption checkpoint: report whether a preemption was pending and
    /// clear the flag, so that the caller yields exactly once per pending
    /// preemption.
    pub fn preemption_checkpoint(&mut self) -> (r: bool)
        ensures
            r == old(self).pending@,
            !final(self).pending@,
            final(self).count@ == old(self).count@,
    {
        if self.pending.load() {
            self.pending.store(false);
            true
        } else {
            false
        }
    }
}

/// Ask the platform for a hardware preemption timer.
///
/// Without the generic-timer glue of the bare-metal target there is no
/// hardware preemption source, so this reports failure and the system falls
/// back to cooperative scheduling.
pub fn init_preemption_timer(interval_ms: u64) -> (r: Result<(), &'static str>)
    ensures
        (r is Err),
{
    let _ = interval_ms;
    Err("Hardware timer preemption not implemented - use cooperative yield points")
}

/// Stop the platform preemption timer, if one was running.
pub fn stop_preemption_timer() {
}

} // verus!
