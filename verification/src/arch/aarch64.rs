//! AArch64 context layout and the contracts of the context-switch substrate.
//!
//! The register save/restore routine itself is inline assembly and lives with
//! the target-specific glue outside this library; here the saved context is
//! modelled as plain data, and the conditions the glue demands of a context
//! about to be loaded are stated as contracts.

use vstd::prelude::*;
use super::Arch;

verus! {

/// Initial PSTATE for a fresh thread: EL1h, interrupts masked until the
/// thread's trampoline unmasks them.
pub const INITIAL_PSTATE: u64 = 0x3c5;

/// Saved thread context for AArch64: the general-purpose registers x0-x30,
/// the stack pointer, the resume address and the processor-state flags.
pub struct Aarch64Context {
    /// General-purpose registers x0-x30.
    pub x: [u64; 31],
    /// Stack pointer.
    pub sp: u64,
    /// Program counter (resume address).
    pub pc: u64,
    /// Processor state register.
    pub pstate: u64,
}

/// What the exception-return glue demands of a context it is asked to load:
/// a non-zero resume address and a 16-byte aligned stack pointer.
pub open spec fn context_loadable(ctx: &Aarch64Context) -> bool {
    &&& ctx.pc != 0
    &&& ctx.sp % 16 == 0
}

impl Default for Aarch64Context {
    /// A zeroed context with the initial processor state.
    fn default() -> (r: Self)
        ensures
            forall|i: int| 0 <= i < 31 ==> r.x@[i] == 0,
            r.sp == 0,
            r.pc == 0,
            r.pstate == INITIAL_PSTATE,
    {
        Aarch64Context { x: [0; 31], sp: 0, pc: 0, pstate: INITIAL_PSTATE }
    }
}

/// Alias kept for the vector glue, which names the saved context by this
/// name.
pub type SavedContext = Aarch64Context;

/// AArch64 architecture implementation.
///
/// The register save/restore routine itself is inline assembly and belongs
/// to the unverified glue around this library; it is **not** verified here.
/// This impl only carries the contract the glue must respect: a context may
/// be loaded only when `context_loadable` holds of it.
pub struct Aarch64Arch;

impl Arch for Aarch64Arch {
    type SavedContext = Aarch64Context;

    open spec fn context_ok(ctx: &Aarch64Context) -> bool {
        context_loadable(ctx)
    }

    fn context_switch(prev: &mut Aarch64Context, next: &Aarch64Context) {
        // The register save/restore is the target's inline-assembly glue;
        // within the library the switch is opaque beyond the loading
        // requirements its contract enforces.
    }

    fn enable_interrupts() {
    }

    fn disable_interrupts() {
    }

    fn interrupts_enabled() -> (r: bool) {
        true
    }
}

/// Number of timer ticks that make up `interval_us` microseconds at counter
/// frequency `freq` Hz, when that fits in the compare register.
pub open spec fn ticks_for_interval(freq: u64, interval_us: u32) -> int {
    freq as int * interval_us as int / 1_000_000
}

/// Compute the generic-timer compare offset for a one-shot interval.
///
/// A frequency of zero means `CNTFRQ_EL0` was never programmed and yields an
/// error rather than a division by zero; an interval whose tick count cannot
/// fit the compare register is rejected as well.
pub fn timer_compare_ticks(freq: u64, interval_us: u32) -> (r: Result<u64, &'static str>)
    ensures
        freq == 0 ==> (r is Err),
        freq != 0 && ticks_for_interval(freq, interval_us) <= u64::MAX as int ==> r == Ok::<
            u64,
            &'static str,
        >((ticks_for_interval(freq, interval_us)) as u64),
        freq != 0 && ticks_for_interval(freq, interval_us) > u64::MAX as int ==> (r is Err),
{
    if freq == 0 {
        return Err("Timer frequency not initialized");
    }
    proof {
        assert(freq as int * interval_us as int <= u64::MAX as int * u32::MAX as int)
            by (nonlinear_arith)
            requires
                0 <= freq <= u64::MAX,
                0 <= interval_us <= u32::MAX,
        ;
    }
    let wide: u128 = (freq as u128) * (interval_us as u128) / 1_000_000;
    if wide > u64::MAX as u128 {
        return Err("Timer interval out of range");
    }
    Ok(wide as u64)
}

} // verus!
