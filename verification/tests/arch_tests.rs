use preemptive_threads::arch::barriers::{BarrierType, CacheInfo, CacheLinePadded, MemoryBarriers};
use preemptive_threads::arch::detection::{
    detect_cpu_features, global_optimizer, CpuArch, RuntimeOptimizer,
};
use preemptive_threads::errors::{
    MemoryError, PermissionError, ResourceError, ScheduleError, SpawnError, ThreadError,
};
use preemptive_threads::platform_timer::{init_preemption_timer, PreemptionState};

#[test]
fn detected_features_match_target() {
    let features = detect_cpu_features();
    assert_eq!(features.arch, CpuArch::Aarch64);
    assert_eq!(features.cache_line_size, 64);
    assert_eq!(features.cpu_cores, 4);
    assert!(features.supports_neon);
    assert!(!features.supports_sve);
}

#[test]
fn optimizer_reports_target_geometry() {
    let optimizer = RuntimeOptimizer::new();
    assert_eq!(optimizer.optimal_cache_line_size(), 64);
    assert!(optimizer.prefer_lock_free());
    assert_eq!(optimizer.recommended_worker_threads(), 4);
    assert_eq!(global_optimizer().features().cpu_cores, 4);
}

#[test]
fn cache_alignment_helpers() {
    assert_eq!(CacheInfo::cache_line_size(), 64);
    assert_eq!(CacheInfo::align_to_cache_line(100), 128);
    assert_eq!(CacheInfo::align_to_cache_line(64), 64);
    assert!(CacheInfo::is_cache_line_aligned(128));
    assert!(!CacheInfo::is_cache_line_aligned(100));
}

#[test]
fn cache_line_padded_wraps_value() {
    let mut padded = CacheLinePadded::new(7u32);
    assert_eq!(*padded.get(), 7);
    padded.set(9);
    assert_eq!(*padded.get(), 9);
}

#[test]
fn barriers_run_on_host() {
    MemoryBarriers::barrier(BarrierType::Full);
    MemoryBarriers::barrier(BarrierType::Acquire);
    MemoryBarriers::barrier(BarrierType::Release);
    MemoryBarriers::barrier(BarrierType::LoadOnly);
    MemoryBarriers::barrier(BarrierType::StoreOnly);
}

#[test]
fn preemption_flag_handshake() {
    let mut state = PreemptionState::new();
    assert!(!state.is_preemption_pending());
    assert!(!state.preemption_checkpoint());

    state.set_preemption_pending();
    assert!(state.is_preemption_pending());
    assert_eq!(state.get_preemption_count(), 1);

    assert!(state.preemption_checkpoint());
    assert!(!state.is_preemption_pending());
    assert!(!state.preemption_checkpoint());
    assert_eq!(state.get_preemption_count(), 1);
}

#[test]
fn hosted_preemption_timer_reports_unavailable() {
    assert!(init_preemption_timer(1).is_err());
    preemptive_threads::platform_timer::stop_preemption_timer();
}

#[test]
fn error_conversions() {
    assert_eq!(
        ThreadError::from(SpawnError::OutOfMemory),
        ThreadError::Spawn(SpawnError::OutOfMemory)
    );
    assert_eq!(
        ThreadError::from(MemoryError::StackOverflow),
        ThreadError::Memory(MemoryError::StackOverflow)
    );
    assert_eq!(
        ThreadError::from(ScheduleError::NoThreadsAvailable),
        ThreadError::Schedule(ScheduleError::NoThreadsAvailable)
    );
    assert_eq!(ThreadError::memory_error(), ThreadError::Memory(MemoryError::OutOfMemory));
    assert_eq!(
        ThreadError::resource_exhaustion(),
        ThreadError::Resource(ResourceError::ResourceUnavailable)
    );
    assert_eq!(ThreadError::invalid_state(), ThreadError::Schedule(ScheduleError::InvalidState));
    assert_eq!(
        ThreadError::permission_denied(),
        ThreadError::Permission(PermissionError::AccessDenied)
    );
}

#[test]
fn bounded_counter_updates() {
    let mut counter = preemptive_threads::sync::AtomicU64Cell::new(0);
    assert_eq!(preemptive_threads::arch::barriers::LockFreeUtils::atomic_increment_bounded(&mut counter, 2), Ok(1));
    assert_eq!(preemptive_threads::arch::barriers::LockFreeUtils::atomic_increment_bounded(&mut counter, 2), Ok(2));
    assert_eq!(preemptive_threads::arch::barriers::LockFreeUtils::atomic_increment_bounded(&mut counter, 2), Ok(2));
    assert_eq!(preemptive_threads::arch::barriers::LockFreeUtils::atomic_decrement_bounded(&mut counter, 1), Ok(1));
    assert_eq!(preemptive_threads::arch::barriers::LockFreeUtils::atomic_decrement_bounded(&mut counter, 1), Ok(1));
}
