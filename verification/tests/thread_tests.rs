use preemptive_threads::errors::SpawnError;
use preemptive_threads::mem::stack_pool::{StackPool, StackSizeClass};
use preemptive_threads::thread::{ReadyRef, Thread, ThreadBuilder, ThreadId, ThreadState};
use preemptive_threads::time::Instant;

const ENTRY: usize = 0x1000;

#[test]
fn test_thread_creation() {
    let mut pool = StackPool::new();
    let stack = pool.allocate(StackSizeClass::Small).unwrap();
    let thread_id = ThreadId::new(1);

    let (thread, _join_handle) = Thread::new(thread_id, stack, ENTRY, 128);

    assert_eq!(thread.id(), thread_id);
    assert_eq!(thread.state(), ThreadState::Ready);
    assert_eq!(thread.priority(), 128);
    assert!(thread.is_runnable());
}

#[test]
fn test_thread_state_transitions() {
    let mut pool = StackPool::new();
    let stack = pool.allocate(StackSizeClass::Small).unwrap();
    let thread_id = ThreadId::new(1);

    let (mut thread, _join_handle) = Thread::new(thread_id, stack, ENTRY, 128);

    assert_eq!(thread.state(), ThreadState::Ready);

    thread.set_state(ThreadState::Running);
    assert_eq!(thread.state(), ThreadState::Running);

    thread.set_state(ThreadState::Blocked);
    assert_eq!(thread.state(), ThreadState::Blocked);
    assert!(!thread.is_runnable());

    thread.set_state(ThreadState::Finished);
    assert_eq!(thread.state(), ThreadState::Finished);
    assert!(!thread.is_runnable());
}

#[test]
fn thread_id_never_zero() {
    assert_eq!(ThreadId::new(0).get(), 1);
    assert_eq!(ThreadId::new(7).get(), 7);
    assert_eq!(ThreadId::new(7).as_u64(), 7);
}

#[test]
fn thread_initial_context_layout() {
    let mut pool = StackPool::new();
    let stack = pool.allocate(StackSizeClass::Small).unwrap();
    let (thread, _h) = Thread::new(ThreadId::new(3), stack, ENTRY, 128);

    assert_eq!(thread.context.pc, ENTRY as u64);
    assert_eq!(thread.context.sp, 4096);
    assert_eq!(thread.context.sp % 16, 0);
    assert_eq!(thread.context.pstate, 0x3c5);
    assert_eq!(thread.context.x[0], 0);
}

#[test]
fn ready_running_round_trip_preserves_identity() {
    let mut pool = StackPool::new();
    let stack = pool.allocate(StackSizeClass::Small).unwrap();
    let (thread, _h) = Thread::new(ThreadId::new(5), stack, ENTRY, 99);
    let vruntime_before = thread.vruntime();

    let ready = ReadyRef(thread);
    let running = ready.start_running(Instant::from_nanos(1_000));
    assert_eq!(running.id(), ThreadId::new(5));
    assert_eq!(running.priority(), 99);

    let ready_again = ready_state(running);
    assert_eq!(ready_again.id(), ThreadId::new(5));
    assert_eq!(ready_again.priority(), 99);
    assert!(ready_again.0.vruntime() >= vruntime_before);
    assert_eq!(ready_again.0.state(), ThreadState::Ready);
}

fn ready_state(r: preemptive_threads::thread::RunningRef) -> ReadyRef {
    r.stop_running()
}

#[test]
fn finish_publishes_join_result_before_state() {
    let mut pool = StackPool::new();
    let stack = pool.allocate(StackSizeClass::Small).unwrap();
    let (thread, _h) = Thread::new(ThreadId::new(6), stack, ENTRY, 128);
    let running = ReadyRef(thread).start_running(Instant::from_nanos(0));
    let done = running.finish();
    assert_eq!(done.state(), ThreadState::Finished);
    assert!(done.join_result.is_some());
}

#[test]
fn test_thread_builder() {
    let mut pool = StackPool::new();
    let thread_id = ThreadId::new(1);

    let builder = ThreadBuilder::new()
        .stack_size_class(StackSizeClass::Medium)
        .priority(200)
        .name(String::from("test-thread"));

    let result = builder.spawn(thread_id, &mut pool, ENTRY);

    assert!(result.is_ok());
    let (thread, _join_handle) = result.unwrap();

    assert_eq!(thread.id(), thread_id);
    assert_eq!(thread.priority(), 200);
    assert_eq!(thread.name().as_deref(), Some("test-thread"));
}

#[test]
fn test_thread_builder_stack_size() {
    let builder1 = ThreadBuilder::new().stack_size(8192);
    let builder2 = ThreadBuilder::new().stack_size(1024);
    let _ = builder1;
    let _ = builder2;
}

#[test]
fn builder_rejects_zero_affinity() {
    let mut pool = StackPool::new();
    let r = ThreadBuilder::new().cpu_affinity(0).spawn(ThreadId::new(1), &mut pool, ENTRY);
    assert_eq!(r.err(), Some(SpawnError::InvalidAffinity(0)));
}

#[test]
fn builder_rejects_tiny_custom_stack() {
    let mut pool = StackPool::new();
    let r = ThreadBuilder::new().stack_size(1024).spawn(ThreadId::new(1), &mut pool, ENTRY);
    assert_eq!(r.err(), Some(SpawnError::InvalidStackSize(1024)));
}

#[test]
fn builder_rejects_long_name() {
    let mut pool = StackPool::new();
    let long = "x".repeat(65);
    let r = ThreadBuilder::new().name(long.clone()).spawn(ThreadId::new(1), &mut pool, ENTRY);
    assert_eq!(r.err(), Some(SpawnError::InvalidName(long)));
}

#[test]
fn builder_installs_default_canary() {
    let mut pool = StackPool::new();
    let (thread, _h) = ThreadBuilder::new().spawn(ThreadId::new(2), &mut pool, ENTRY).unwrap();
    assert!(thread.check_stack_integrity());
}

#[test]
fn builder_custom_stack_size_picks_class() {
    let mut pool = StackPool::new();
    let (t1, _) = ThreadBuilder::new().stack_size(8192).spawn(ThreadId::new(1), &mut pool, ENTRY).unwrap();
    assert_eq!(t1.stack.as_ref().unwrap().size_class(), StackSizeClass::Small);
    let (t2, _) = ThreadBuilder::new().stack_size(20000).spawn(ThreadId::new(2), &mut pool, ENTRY).unwrap();
    assert_eq!(t2.stack.as_ref().unwrap().size_class(), StackSizeClass::Medium);
}
