//! Convenience constants for common priority levels.

use vstd::prelude::*;

verus! {

/// Idle priority - only runs when nothing else is ready.
pub const IDLE: u8 = 0;

/// Low priority - background tasks.
pub const LOW: u8 = 64;

/// Normal priority - default for most threads.
pub const NORMAL: u8 = 128;

/// High priority - important system tasks.
pub const HIGH: u8 = 192;

/// Real-time priority - critical system operations.
pub const REALTIME: u8 = 255;

} // verus!
