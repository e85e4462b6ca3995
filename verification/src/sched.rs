//! Thread scheduler implementations.

pub mod priority;
pub mod rr;
pub mod trait_def;

pub use rr::{FirstComeFirstServeScheduler, RoundRobinScheduler};
pub use trait_def::{CpuId, Scheduler};

use vstd::prelude::*;

verus! {

/// Default scheduler type.
pub type DefaultScheduler = RoundRobinScheduler;

} // verus!
