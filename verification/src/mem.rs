//! Memory management for thread stacks.

pub mod stack_pool;

pub use stack_pool::{Stack, StackPool, StackSizeClass};
