//! Preemptive multithreading for a single-CPU bare-metal AArch64 kernel.
//!
//! The library holds the thread objects and their lifecycle state machine,
//! the stack pool, the priority-classed round-robin scheduler with its
//! first-come first-serve variant, the time-slice accounting, and the kernel
//! façade that decides every context switch.  The architecture glue (the
//! register save/restore assembly, the exception vectors, the interrupt
//! controller and the boot path) performs the switches this library decides,
//! as the contracts of the kernel's entry points describe.

pub mod arch;
pub mod errors;
pub mod kernel;
pub mod mem;
pub mod platform_timer;
pub mod sched;
pub mod sync;
pub mod thread;
pub mod time;

pub use arch::{Arch, DefaultArch};
pub use errors::{SpawnError, ThreadError, ThreadResult};
pub use kernel::{Kernel, SwitchAction};
pub use mem::{Stack, StackPool, StackSizeClass};
pub use sched::{RoundRobinScheduler, Scheduler};
pub use thread::{JoinHandle, Thread, ThreadBuilder, ThreadId, ThreadState};
pub use time::{Duration, Instant, TIMER_FREQUENCY_HZ};
