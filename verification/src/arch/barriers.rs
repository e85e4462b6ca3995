//! Memory barriers and cache-line helpers.
//!
//! The barrier bodies issue real fences; the scheduler's contracts do not
//! depend on them, but code running against interrupt handlers does.

use vstd::prelude::*;
use crate::sync::AtomicU64Cell;

verus! {

/// The flavours of memory barrier the port distinguishes.
#[derive(Debug, Clone, Copy, PartialEq, Eq, Structural)]
pub enum BarrierType {
    Full,
    Acquire,
    Release,
    LoadOnly,
    StoreOnly,
}

/// Memory barrier operations.
pub struct MemoryBarriers;

impl MemoryBarriers {
    /// Issue a barrier of the given type.
    pub fn barrier(barrier_type: BarrierType) {
        match barrier_type {
            BarrierType::Full => Self::full_barrier(),
            BarrierType::Acquire => Self::acquire_barrier(),
            BarrierType::Release => Self::release_barrier(),
            BarrierType::LoadOnly => Self::load_barrier(),
            BarrierType::StoreOnly => Self::store_barrier(),
        }
    }

    /// Relies on core::sync::atomic::fence: a sequentially consistent fence.
    #[verifier::external_body]
    pub fn full_barrier() {
        core::sync::atomic::fence(core::sync::atomic::Ordering::SeqCst);
    }

    /// Relies on core::sync::atomic::fence: an acquire fence.
    #[verifier::external_body]
    pub fn acquire_barrier() {
        core::sync::atomic::fence(core::sync::atomic::Ordering::Acquire);
    }

    /// Relies on core::sync::atomic::fence: a release fence.
    #[verifier::external_body]
    pub fn release_barrier() {
        core::sync::atomic::fence(core::sync::atomic::Ordering::Release);
    }

    /// Barrier ordering earlier loads before later memory operations.
    pub fn load_barrier() {
        Self::acquire_barrier();
    }

    /// Barrier ordering earlier stores before later stores.
    pub fn store_barrier() {
        Self::release_barrier();
    }
}

/// Helpers for the counter updates the scheduler's bookkeeping uses.
pub struct LockFreeUtils;

impl LockFreeUtils {
    /// Increment a counter unless it already reached `max_value`; the new
    /// value is returned, as an error when the bound blocked the increment.
    pub fn atomic_increment_bounded(counter: &mut AtomicU64Cell, max_value: u64) -> (r: Result<
        u64,
        u64,
    >)
        ensures
            old(counter)@ < max_value ==> final(counter)@ == old(counter)@ + 1 && r == Ok::<
                u64,
                u64,
            >((old(counter)@ + 1) as u64),
            old(counter)@ >= max_value ==> final(counter)@ == old(counter)@ && (if old(counter)@
                <= max_value {
                r == Ok::<u64, u64>(old(counter)@)
            } else {
                r == Err::<u64, u64>(old(counter)@)
            }),
    {
        let current = counter.load();
        if current < max_value {
            counter.store(current + 1);
            Ok(current + 1)
        } else if current <= max_value {
            Ok(current)
        } else {
            Err(current)
        }
    }

    /// Decrement a counter unless it already reached `min_value`; the new
    /// value is returned, as an error when the bound blocked the decrement.
    pub fn atomic_decrement_bounded(counter: &mut AtomicU64Cell, min_value: u64) -> (r: Result<
        u64,
        u64,
    >)
        ensures
            old(counter)@ > min_value ==> final(counter)@ == old(counter)@ - 1 && r == Ok::<
                u64,
                u64,
            >((old(counter)@ - 1) as u64),
            old(counter)@ <= min_value ==> final(counter)@ == old(counter)@ && (if old(counter)@
                >= min_value {
                r == Ok::<u64, u64>(old(counter)@)
            } else {
                r == Err::<u64, u64>(old(counter)@)
            }),
    {
        let current = counter.load();
        if current > min_value {
            counter.store(current - 1);
            Ok(current - 1)
        } else if current >= min_value {
            Ok(current)
        } else {
            Err(current)
        }
    }
}

/// Cache geometry of the target CPU.
pub struct CacheInfo;

impl CacheInfo {
    /// Cache line size in bytes.
    pub fn cache_line_size() -> (r: usize)
        ensures
            r == 64,
    {
        64
    }

    /// Round `size` up to a whole number of cache lines.
    pub fn align_to_cache_line(size: usize) -> (r: usize)
        requires
            size + 63 <= usize::MAX,
        ensures
            r == ((size + 63) / 64) * 64,
            r % 64 == 0,
            size <= r < size + 64,
    {
        ((size + 63) / 64) * 64
    }

    /// Whether an address lies on a cache-line boundary.
    pub fn is_cache_line_aligned(addr: usize) -> (r: bool)
        ensures
            r == (addr % 64 == 0),
    {
        addr % 64 == 0
    }
}

/// Wrapper keeping a value in a cache line of its own to prevent false
/// sharing between CPUs.
#[derive(Debug, Default)]
pub struct CacheLinePadded<T> {
    pub value: T,
}

impl<T> CacheLinePadded<T> {
    /// Wrap a value.
    pub fn new(value: T) -> (r: Self)
        ensures
            r.value == value,
    {
        CacheLinePadded { value }
    }

    /// Read access to the wrapped value.
    pub fn get(&self) -> (r: &T)
        ensures
            r == self.value,
    {
        &self.value
    }

    /// Replace the wrapped value.
    pub fn set(&mut self, value: T)
        ensures
            final(self).value == value,
    {
        self.value = value;
    }
}

} // verus!
