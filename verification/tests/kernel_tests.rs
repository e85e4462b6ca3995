use preemptive_threads::arch::aarch64::Aarch64Arch;
use preemptive_threads::errors::{JoinError, SpawnError};
use preemptive_threads::kernel::Kernel;
use preemptive_threads::sched::rr::{FirstComeFirstServeScheduler, RoundRobinScheduler};
use preemptive_threads::thread::ThreadId;
use preemptive_threads::time::Instant;

const ENTRY: usize = 0x1000;

fn fcfs_kernel() -> Kernel<Aarch64Arch, FirstComeFirstServeScheduler> {
    Kernel::new(FirstComeFirstServeScheduler::new(1))
}

fn rr_kernel() -> Kernel<Aarch64Arch, RoundRobinScheduler> {
    Kernel::new(RoundRobinScheduler::new(1))
}

#[test]
fn init_succeeds_once() {
    let mut k = fcfs_kernel();
    assert!(!k.is_initialized());
    assert_eq!(k.init(), Ok(()));
    assert!(k.is_initialized());
    assert_eq!(k.init(), Err(()));
}

#[test]
fn spawn_requires_initialization() {
    let mut k = fcfs_kernel();
    assert_eq!(k.spawn(ENTRY, 128).err(), Some(SpawnError::NotInitialized));
}

#[test]
fn spawn_mints_monotonic_ids() {
    let mut k = fcfs_kernel();
    k.init().unwrap();
    let h1 = k.spawn(ENTRY, 128).unwrap();
    let h2 = k.spawn(ENTRY, 128).unwrap();
    assert_eq!(h1.thread_id(), ThreadId::new(1));
    assert_eq!(h2.thread_id(), ThreadId::new(2));
}

#[test]
fn spawn_beyond_pool_capacity_is_out_of_memory() {
    let mut k: Kernel<Aarch64Arch, FirstComeFirstServeScheduler> =
        Kernel::with_pool_capacity(FirstComeFirstServeScheduler::new(1), 1);
    k.init().unwrap();
    let h1 = k.spawn(ENTRY, 128).unwrap();
    assert_eq!(h1.thread_id(), ThreadId::new(1));

    // The pool is exhausted: no thread is created and no identifier is
    // consumed by the failing spawn.
    assert_eq!(k.spawn(ENTRY, 128).err(), Some(SpawnError::OutOfMemory));
    assert_eq!(k.next_thread_id.load(), 2);
    let (_, runnable, _) = k.thread_stats();
    assert_eq!(runnable, 1);
}

#[test]
fn two_cooperative_threads_round_robin() {
    let mut k = fcfs_kernel();
    k.init().unwrap();
    let t1 = k.spawn(ENTRY, 128).unwrap().thread_id();
    let t2 = k.spawn(ENTRY, 128).unwrap().thread_id();

    let now = Instant::from_nanos(0);
    let first = k.start_first_thread(now).unwrap();
    assert_eq!(first.next, t1);

    // Each cooperative yield hands the CPU to the other thread: the
    // scheduling order is t2, t1, t2, t1, ... with no thread scheduled
    // twice in a row.
    let mut expected = [t2, t1, t2, t1, t2, t1].into_iter();
    for step in 1..=6u64 {
        let action = k.yield_now(Instant::from_nanos(step * 1_000)).unwrap();
        assert_eq!(action.next, expected.next().unwrap());
    }
}

#[test]
fn strict_priority_preemption_on_tick() {
    let mut k = rr_kernel();
    k.init().unwrap();
    let low = k.spawn(ENTRY, 32).unwrap().thread_id();

    let t0 = Instant::from_nanos(1_000_000);
    let first = k.start_first_thread(t0).unwrap();
    assert_eq!(first.next, low);

    let high = k.spawn(ENTRY, 200).unwrap().thread_id();

    // Priority 32 has a 500 microsecond quantum; on the first tick after it
    // expires the waiting High thread replaces the Low one.
    let action = k.handle_irq_preemption(Instant::from_nanos(1_600_000)).unwrap();
    assert_eq!(action.prev, Some(low));
    assert_eq!(action.next, high);
}

#[test]
fn preemption_waits_for_quantum() {
    let mut k = rr_kernel();
    k.init().unwrap();
    let low = k.spawn(ENTRY, 32).unwrap().thread_id();
    let t0 = Instant::from_nanos(1_000_000);
    assert_eq!(k.start_first_thread(t0).unwrap().next, low);
    k.spawn(ENTRY, 200).unwrap();

    assert!(k.handle_irq_preemption(Instant::from_nanos(1_100_000)).is_none());
}

#[test]
fn timer_interrupt_round_robins_equal_priority() {
    let mut k = fcfs_kernel();
    k.init().unwrap();
    let t1 = k.spawn(ENTRY, 128).unwrap().thread_id();
    let t2 = k.spawn(ENTRY, 128).unwrap().thread_id();

    assert_eq!(k.start_first_thread(Instant::from_nanos(0)).unwrap().next, t1);
    let a = k.handle_timer_interrupt(Instant::from_nanos(1_000_000)).unwrap();
    assert_eq!((a.prev, a.next), (Some(t1), t2));
    let b = k.handle_timer_interrupt(Instant::from_nanos(2_000_000)).unwrap();
    assert_eq!((b.prev, b.next), (Some(t2), t1));
}

#[test]
fn join_handshake() {
    let mut k = fcfs_kernel();
    k.init().unwrap();
    let handle = k.spawn(ENTRY, 128).unwrap();

    assert!(k.is_alive(&handle));
    assert!(k.try_join(&handle).is_none());

    k.start_first_thread(Instant::from_nanos(0)).unwrap();
    k.finish_current(Instant::from_nanos(1_000));

    // The join result is delivered exactly once; a later join on the same
    // identity reports that it was already joined.
    assert_eq!(k.try_join(&handle), Some(Ok(())));
    assert_eq!(k.try_join(&handle), Some(Err(JoinError::AlreadyJoined)));
    assert!(!k.is_alive(&handle));
}

#[test]
fn test_join_handle_basic() {
    let mut k = fcfs_kernel();
    k.init().unwrap();
    let join_handle = k.spawn(ENTRY, 128).unwrap();

    assert_eq!(join_handle.thread_id(), ThreadId::new(1));
    assert!(k.is_alive(&join_handle));
    assert!(k.try_join(&join_handle).is_none());

    k.start_first_thread(Instant::from_nanos(0)).unwrap();
    k.finish_current(Instant::from_nanos(1));

    assert!(!k.is_alive(&join_handle));
    assert_eq!(k.try_join(&join_handle), Some(Ok(())));
    assert_eq!(k.try_join(&join_handle), Some(Err(JoinError::AlreadyJoined)));
}

#[test]
fn current_thread_context_is_loadable() {
    let mut k = fcfs_kernel();
    k.init().unwrap();
    k.spawn(ENTRY, 128).unwrap();
    k.start_first_thread(Instant::from_nanos(0)).unwrap();

    let current = k.current_thread.as_ref().unwrap();
    assert_ne!(current.0.context.pc, 0);
    assert_eq!(current.0.context.sp % 16, 0);
}

#[test]
fn irq_pointers_track_current_thread() {
    let mut k = fcfs_kernel();
    k.init().unwrap();
    let t1 = k.spawn(ENTRY, 128).unwrap().thread_id();
    let t2 = k.spawn(ENTRY, 128).unwrap().thread_id();

    assert_eq!(k.start_first_thread(Instant::from_nanos(0)).unwrap().next, t1);
    assert_eq!(k.irq_save_ctx, Some(t1));
    assert_eq!(k.irq_load_ctx, Some(t1));

    k.handle_timer_interrupt(Instant::from_nanos(1_000_000)).unwrap();
    assert_eq!(k.irq_save_ctx, Some(t2));
    assert_eq!(k.irq_load_ctx, Some(t2));
}

#[test]
fn yield_without_threads_does_nothing() {
    let mut k = fcfs_kernel();
    k.init().unwrap();
    assert!(k.yield_now(Instant::from_nanos(0)).is_none());
    assert!(k.start_first_thread(Instant::from_nanos(0)).is_none());
}
