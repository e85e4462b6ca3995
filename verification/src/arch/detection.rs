//! CPU feature detection for the ARM Cortex-A53 target.
//!
//! The target is fixed, so detection amounts to reporting the Cortex-A53's
//! known capabilities.

use vstd::prelude::*;

verus! {

/// CPU architecture types.
#[derive(Debug, Clone, Copy, PartialEq, Eq, Structural)]
pub enum CpuArch {
    Aarch64,
    Unknown,
}

/// CPU feature flags for the AArch64 target.
#[derive(Debug, Clone, Copy)]
pub struct CpuFeatures {
    pub arch: CpuArch,
    pub cache_line_size: u32,
    pub cpu_cores: u32,
    pub supports_fpu: bool,
    pub supports_vector: bool,
    pub supports_atomic_cas: bool,
    pub supports_memory_ordering: bool,
    pub supports_neon: bool,
    pub supports_sve: bool,
    pub supports_sve2: bool,
}

/// The feature set of the Cortex-A53 on the target board.
pub open spec fn detected_features() -> CpuFeatures {
    CpuFeatures {
        arch: CpuArch::Aarch64,
        cache_line_size: 64u32,
        cpu_cores: 4u32,
        supports_fpu: true,
        supports_vector: true,
        supports_atomic_cas: true,
        supports_memory_ordering: true,
        supports_neon: true,
        supports_sve: false,
        supports_sve2: false,
    }
}

impl Default for CpuFeatures {
    fn default() -> (r: Self)
        ensures
            r == detected_features(),
    {
        CpuFeatures {
            arch: CpuArch::Aarch64,
            cache_line_size: 64,
            cpu_cores: 4,
            supports_fpu: true,
            supports_vector: true,
            supports_atomic_cas: true,
            supports_memory_ordering: true,
            supports_neon: true,
            supports_sve: false,
            supports_sve2: false,
        }
    }
}

/// Detect the CPU architecture and features of the current CPU.
pub fn detect_cpu_features() -> (r: CpuFeatures)
    ensures
        r == detected_features(),
{
    CpuFeatures {
        arch: CpuArch::Aarch64,
        cache_line_size: 64,
        cpu_cores: 4,
        supports_fpu: true,
        supports_vector: true,
        supports_atomic_cas: true,
        supports_memory_ordering: true,
        supports_neon: true,
        supports_sve: false,
        supports_sve2: false,
    }
}

/// Runtime optimization controller built on the detected CPU features.
pub struct RuntimeOptimizer {
    pub features: CpuFeatures,
}

impl RuntimeOptimizer {
    /// Create a new optimizer over the detected CPU features.
    pub fn new() -> (r: Self)
        ensures
            r.features == detected_features(),
    {
        RuntimeOptimizer { features: detect_cpu_features() }
    }

    /// The detected CPU features.
    pub fn features(&self) -> (r: &CpuFeatures)
        ensures
            r == self.features,
    {
        &self.features
    }

    /// The cache line size to align hot data to.
    pub fn optimal_cache_line_size(&self) -> (r: usize)
        ensures
            r == self.features.cache_line_size as usize,
    {
        self.features.cache_line_size as usize
    }

    /// Whether lock-free algorithms should be preferred on this CPU.
    pub fn prefer_lock_free(&self) -> (r: bool)
        ensures
            r == (self.features.supports_atomic_cas && self.features.supports_memory_ordering),
    {
        self.features.supports_atomic_cas && self.features.supports_memory_ordering
    }

    /// The recommended number of worker threads.
    pub fn recommended_worker_threads(&self) -> (r: usize)
        ensures
            r == (if self.features.cpu_cores >= 1 {
                self.features.cpu_cores as int
            } else {
                1int
            }),
    {
        let cores = self.features.cpu_cores as usize;
        if cores >= 1 {
            cores
        } else {
            1
        }
    }
}

impl Default for RuntimeOptimizer {
    fn default() -> (r: Self)
        ensures
            r.features == detected_features(),
    {
        RuntimeOptimizer::new()
    }
}

/// The process-wide optimizer: detection is deterministic on this target, so
/// every caller sees the same feature set.
pub fn global_optimizer() -> (r: RuntimeOptimizer)
    ensures
        r.features == detected_features(),
{
    RuntimeOptimizer::new()
}

} // verus!
