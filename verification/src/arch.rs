//! Architecture abstraction layer for context switching and interrupt
//! handling.

use vstd::prelude::*;

pub mod aarch64;
pub mod barriers;
pub mod detection;

pub use aarch64::Aarch64Arch as DefaultArch;

verus! {

/// Architecture abstraction trait.
///
/// Ports implement this trait to provide context switching and interrupt
/// masking.  `context_ok` states the architecture's demands on a context
/// that is about to be loaded; `context_switch` insists on it.
pub trait Arch {
    /// Architecture-specific saved context type.
    type SavedContext;

    /// What must hold of a context before the CPU may load it.
    spec fn context_ok(ctx: &Self::SavedContext) -> bool;

    /// Save the current register state into `prev` and load `next`.
    ///
    /// Must be called with interrupts disabled, and only with a `next`
    /// context that satisfies the architecture's loading requirements.
    fn context_switch(prev: &mut Self::SavedContext, next: &Self::SavedContext)
        requires
            Self::context_ok(next),
    ;

    /// Enable interrupts on the current CPU.
    fn enable_interrupts();

    /// Disable interrupts on the current CPU.
    fn disable_interrupts();

    /// Check whether interrupts are currently enabled.
    fn interrupts_enabled() -> bool;
}

/// A no-op architecture implementation for testing and fallback purposes.
pub struct NoOpArch;

impl Arch for NoOpArch {
    type SavedContext = ();

    open spec fn context_ok(ctx: &()) -> bool {
        true
    }

    fn context_switch(prev: &mut (), next: &()) {
    }

    fn enable_interrupts() {
    }

    fn disable_interrupts() {
    }

    fn interrupts_enabled() -> (r: bool) {
        true
    }
}

} // verus!
