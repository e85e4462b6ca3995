//! Time management and time-slice accounting.

use vstd::prelude::*;
use crate::sync::AtomicU64Cell;

verus! {

/// Frequency in Hz for timer interrupts.
pub const TIMER_FREQUENCY_HZ: u32 = 1000;

/// Default quantum duration in nanoseconds (1 ms).
pub const DEFAULT_QUANTUM_NS: u64 = 1_000_000;

/// Nanoseconds since some arbitrary epoch.
///
/// Used for high-resolution timing and scheduling decisions.  The epoch is
/// implementation-defined; on the target it derives from the generic timer.
#[derive(Debug, Clone, Copy, PartialEq, Eq, Structural, PartialOrd, Ord)]
pub struct Instant(pub u64);

impl Instant {
    /// Create a new instant from nanoseconds since epoch.
    pub fn from_nanos(nanos: u64) -> (r: Self)
        ensures
            r.0 == nanos,
    {
        Instant(nanos)
    }

    /// Get nanoseconds since epoch.
    pub fn as_nanos(self) -> (r: u64)
        ensures
            r == self.0,
    {
        self.0
    }

    /// Get nanoseconds since epoch as u128 for calculations.
    pub fn as_nanos_u128(self) -> (r: u128)
        ensures
            r == self.0 as u128,
    {
        self.0 as u128
    }

    /// Calculate the duration since another, earlier instant.
    pub fn duration_since(self, earlier: Instant) -> (r: Duration)
        requires
            earlier.0 <= self.0,
        ensures
            r.0 == self.0 - earlier.0,
    {
        Duration(self.0 - earlier.0)
    }
}

/// A duration of time, counted in nanoseconds.
#[derive(Debug, Clone, Copy, PartialEq, Eq, Structural, PartialOrd, Ord)]
pub struct Duration(pub u64);

impl Duration {
    /// Create a duration from nanoseconds.
    pub fn from_nanos(nanos: u64) -> (r: Self)
        ensures
            r.0 == nanos,
    {
        Duration(nanos)
    }

    /// Create a duration from microseconds.
    pub fn from_micros(micros: u64) -> (r: Self)
        requires
            micros * 1_000 <= u64::MAX,
        ensures
            r.0 == micros * 1_000,
    {
        Duration(micros * 1_000)
    }

    /// Create a duration from milliseconds.
    pub fn from_millis(millis: u64) -> (r: Self)
        requires
            millis * 1_000_000 <= u64::MAX,
        ensures
            r.0 == millis * 1_000_000,
    {
        Duration(millis * 1_000_000)
    }

    /// Get nanoseconds in this duration.
    pub fn as_nanos(self) -> (r: u64)
        ensures
            r == self.0,
    {
        self.0
    }

    /// Get nanoseconds as u128 for calculations.
    pub fn as_nanos_u128(self) -> (r: u128)
        ensures
            r == self.0 as u128,
    {
        self.0 as u128
    }

    /// Get microseconds in this duration.
    pub fn as_micros(self) -> (r: u64)
        ensures
            r == self.0 / 1_000,
    {
        self.0 / 1_000
    }

    /// Get milliseconds in this duration.
    pub fn as_millis(self) -> (r: u64)
        ensures
            r == self.0 / 1_000_000,
    {
        self.0 / 1_000_000
    }
}

/// Quantum granted to a thread of the given priority, in nanoseconds.
///
/// The four priority brackets scale the base quantum from half a millisecond
/// up to four milliseconds.
pub open spec fn quantum_for(priority: u8) -> u64 {
    if priority <= 63 {
        (DEFAULT_QUANTUM_NS / 2) as u64
    } else if priority <= 127 {
        DEFAULT_QUANTUM_NS
    } else if priority <= 191 {
        (DEFAULT_QUANTUM_NS * 2) as u64
    } else {
        (DEFAULT_QUANTUM_NS * 4) as u64
    }
}

/// Weight dividing real elapsed time into virtual runtime: higher priority
/// threads accumulate virtual time more slowly per unit of real time.
pub open spec fn priority_factor_for(priority: u8) -> u32 {
    if priority <= 63 {
        500u32
    } else if priority <= 127 {
        1000u32
    } else if priority <= 191 {
        1500u32
    } else {
        2000u32
    }
}

/// Virtual time accumulated for `elapsed` nanoseconds of real time at the
/// given priority factor.
pub open spec fn virtual_elapsed_spec(elapsed: u64, factor: u32) -> int {
    elapsed as int * 1000 / factor as int
}

/// Saturating addition of virtual time onto a virtual-runtime accumulator.
pub open spec fn vruntime_after(vruntime: u64, elapsed: u64, factor: u32) -> u64 {
    if vruntime as int + virtual_elapsed_spec(elapsed, factor) <= u64::MAX as int {
        (vruntime as int + virtual_elapsed_spec(elapsed, factor)) as u64
    } else {
        u64::MAX
    }
}

/// Real time elapsed in the current slice at `now` (0 when the clock reads
/// earlier than the slice start).
pub open spec fn elapsed_in_slice(ts: TimeSlice, now: Instant) -> u64 {
    if now.0 >= ts.slice_start {
        (now.0 - ts.slice_start) as u64
    } else {
        0u64
    }
}

/// The accounting state after an update at `now`: virtual runtime grows by
/// the weighted elapsed time once a slice has started.
pub open spec fn ts_after_update(ts: TimeSlice, now: Instant) -> TimeSlice {
    if ts.slice_start == 0 {
        ts
    } else {
        TimeSlice {
            vruntime: vruntime_after(
                ts.vruntime,
                elapsed_in_slice(ts, now),
                priority_factor_for(ts.priority),
            ),
            ..ts
        }
    }
}

/// Whether the quantum of the current slice has expired at `now`.
pub open spec fn slice_expired(ts: TimeSlice, now: Instant) -> bool {
    ts.slice_start != 0 && elapsed_in_slice(ts, now) >= ts.quantum
}

/// Per-thread time-slice accounting: a virtual-runtime accumulator, the
/// timestamp at which the current slice started, the quantum, and a cached
/// priority.
pub struct TimeSlice {
    pub vruntime: u64,
    pub slice_start: u64,
    pub quantum: u64,
    pub priority: u8,
}

impl TimeSlice {
    /// Create a fresh tracker for a thread of the given priority.
    pub fn new(priority: u8) -> (r: Self)
        ensures
            r.vruntime == 0,
            r.slice_start == 0,
            r.quantum == quantum_for(priority),
            r.priority == priority,
    {
        TimeSlice {
            vruntime: 0,
            slice_start: 0,
            quantum: Self::calculate_quantum(priority),
            priority,
        }
    }

    /// Current virtual runtime.
    pub fn vruntime(&self) -> (r: u64)
        ensures
            r == self.vruntime,
    {
        self.vruntime
    }

    /// Current quantum in nanoseconds.
    pub fn quantum(&self) -> (r: u64)
        ensures
            r == self.quantum,
    {
        self.quantum
    }

    /// Cached priority.
    pub fn priority(&self) -> (r: u8)
        ensures
            r == self.priority,
    {
        self.priority
    }

    /// Record the start of a new slice.
    pub fn start_slice(&mut self, current_time: Instant)
        ensures
            *final(self) == (TimeSlice { slice_start: current_time.0, ..*old(self) }),
    {
        self.slice_start = current_time.as_nanos();
    }

    /// Add the virtual time for the elapsed part of the current slice and
    /// report whether the quantum has expired.
    ///
    /// Before the first slice has started, nothing is accumulated and the
    /// slice never counts as expired.
    pub fn update_vruntime(&mut self, current_time: Instant) -> (expired: bool)
        ensures
            *final(self) == ts_after_update(*old(self), current_time),
            expired == slice_expired(*old(self), current_time),
    {
        if self.slice_start == 0 {
            return false;
        }
        let now: u64 = current_time.as_nanos();
        let elapsed: u64 = if now >= self.slice_start {
            now - self.slice_start
        } else {
            0
        };
        let factor: u32 = Self::calculate_priority_factor(self.priority);
        let wide: u128 = (elapsed as u128) * 1000 / (factor as u128);
        let room: u64 = u64::MAX - self.vruntime;
        if wide <= room as u128 {
            self.vruntime = self.vruntime + (wide as u64);
        } else {
            self.vruntime = u64::MAX;
        }
        elapsed >= self.quantum
    }

    /// Report whether the current slice has expired at `current_time`,
    /// accumulating virtual runtime on the way.
    pub fn should_preempt(&mut self, current_time: Instant) -> (expired: bool)
        ensures
            *final(self) == ts_after_update(*old(self), current_time),
            expired == slice_expired(*old(self), current_time),
    {
        self.update_vruntime(current_time)
    }

    /// Change the priority and recompute the quantum.
    pub fn set_priority(&mut self, new_priority: u8)
        ensures
            *final(self) == (TimeSlice {
                priority: new_priority,
                quantum: quantum_for(new_priority),
                ..*old(self)
            }),
    {
        self.priority = new_priority;
        self.quantum = Self::calculate_quantum(new_priority);
    }

    /// Override the quantum with a custom duration.
    pub fn set_custom_duration(&mut self, duration: Duration)
        ensures
            *final(self) == (TimeSlice { quantum: duration.0, ..*old(self) }),
    {
        self.quantum = duration.as_nanos();
    }

    /// Reset the virtual runtime (used for priority inheritance).
    pub fn reset_vruntime(&mut self, new_vruntime: u64)
        ensures
            *final(self) == (TimeSlice { vruntime: new_vruntime, ..*old(self) }),
    {
        self.vruntime = new_vruntime;
    }

    fn calculate_quantum(priority: u8) -> (r: u64)
        ensures
            r == quantum_for(priority),
    {
        if priority <= 63 {
            DEFAULT_QUANTUM_NS / 2
        } else if priority <= 127 {
            DEFAULT_QUANTUM_NS
        } else if priority <= 191 {
            DEFAULT_QUANTUM_NS * 2
        } else {
            DEFAULT_QUANTUM_NS * 4
        }
    }

    fn calculate_priority_factor(priority: u8) -> (r: u32)
        ensures
            r == priority_factor_for(priority),
    {
        if priority <= 63 {
            500
        } else if priority <= 127 {
            1000
        } else if priority <= 191 {
            1500
        } else {
            2000
        }
    }
}

/// The virtual-runtime accumulator never decreases when a slice update adds
/// the virtual time of an elapsed interval.
pub proof fn lemma_vruntime_monotone(vruntime: u64, elapsed: u64, factor: u32)
    requires
        factor >= 500,
    ensures
        vruntime_after(vruntime, elapsed, factor) >= vruntime,
{
    assert(virtual_elapsed_spec(elapsed, factor) >= 0) by (nonlinear_arith)
        requires
            factor >= 500,
    ;
}

/// Global tick counter for system uptime and scheduling decisions.
///
/// The counter is incremented on every timer interrupt and provides a
/// monotonic time source.
pub struct TickCounter {
    pub ticks: AtomicU64Cell,
    pub frequency: u32,
    pub ns_per_tick: u64,
}

impl TickCounter {
    /// Well-formedness: the cached nanoseconds-per-tick value matches the
    /// frequency, which is positive and at most 1 GHz.
    pub open spec fn wf(&self) -> bool {
        &&& 0 < self.frequency <= 1_000_000_000
        &&& self.ns_per_tick == 1_000_000_000 as u64 / self.frequency as u64
        &&& self.ns_per_tick >= 1
    }

    /// Create a new tick counter with the given frequency in Hz.
    ///
    /// The frequency must be positive and at most 1 GHz: that keeps the
    /// nanoseconds-per-tick value at least 1, so the tick conversions never
    /// divide by zero.
    pub fn new(frequency: u32) -> (r: Self)
        requires
            0 < frequency <= 1_000_000_000,
        ensures
            r.wf(),
            r.ticks@ == 0,
            r.frequency == frequency,
    {
        let ns_per_tick: u64 = 1_000_000_000 / (frequency as u64);
        assert(ns_per_tick >= 1) by (nonlinear_arith)
            requires
                ns_per_tick == 1_000_000_000 as u64 / frequency as u64,
                0 < frequency <= 1_000_000_000,
        ;
        TickCounter { ticks: AtomicU64Cell::new(0), frequency, ns_per_tick }
    }

    /// Increment the tick counter (called on every timer interrupt).
    pub fn increment(&mut self)
        ensures
            old(self).ticks@ < u64::MAX ==> final(self).ticks@ == old(self).ticks@ + 1,
            final(self).frequency == old(self).frequency,
            final(self).ns_per_tick == old(self).ns_per_tick,
    {
        let _ = self.ticks.fetch_add(1);
    }

    /// Get the current tick count.
    pub fn ticks(&self) -> (r: u64)
        ensures
            r == self.ticks@,
    {
        self.ticks.load()
    }

    /// Get the tick frequency in Hz.
    pub fn frequency(&self) -> (r: u32)
        ensures
            r == self.frequency,
    {
        self.frequency
    }

    /// Convert ticks to nanoseconds.
    pub fn ticks_to_nanos(&self, ticks: u64) -> (r: u64)
        requires
            ticks * self.ns_per_tick <= u64::MAX,
        ensures
            r == ticks * self.ns_per_tick,
    {
        ticks * self.ns_per_tick
    }

    /// Convert nanoseconds to ticks.
    pub fn nanos_to_ticks(&self, nanos: u64) -> (r: u64)
        requires
            self.wf(),
        ensures
            r == nanos / self.ns_per_tick,
    {
        nanos / self.ns_per_tick
    }

    /// Get the current time as an instant.
    pub fn now(&self) -> (r: Instant)
        requires
            self.ticks@ * self.ns_per_tick <= u64::MAX,
        ensures
            r.0 == self.ticks@ * self.ns_per_tick,
    {
        let ticks = self.ticks();
        Instant::from_nanos(self.ticks_to_nanos(ticks))
    }
}

} // verus!
