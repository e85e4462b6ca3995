use preemptive_threads::mem::stack_pool::{StackPool, StackSizeClass};
use preemptive_threads::sched::rr::{
    FirstComeFirstServeScheduler, PriorityLevel, ReadyQueue, RoundRobinScheduler,
};
use preemptive_threads::sched::trait_def::Scheduler;
use preemptive_threads::thread::{ReadyRef, Thread, ThreadId};
use preemptive_threads::time::Instant;

const ENTRY: usize = 0x1000;

fn ready(id: u64, priority: u8, pool: &mut StackPool) -> ReadyRef {
    let stack = pool.allocate(StackSizeClass::Small).unwrap();
    let (thread, _h) = Thread::new(ThreadId::new(id), stack, ENTRY, priority);
    ReadyRef(thread)
}

#[test]
fn test_priority_level_mapping() {
    assert_eq!(RoundRobinScheduler::priority_level(0), PriorityLevel::Idle);
    assert_eq!(RoundRobinScheduler::priority_level(32), PriorityLevel::Low);
    assert_eq!(RoundRobinScheduler::priority_level(128), PriorityLevel::Normal);
    assert_eq!(RoundRobinScheduler::priority_level(255), PriorityLevel::High);
}

#[test]
fn test_scheduler_creation() {
    let scheduler = RoundRobinScheduler::new(4);
    assert_eq!(scheduler.num_cpus, 4);

    let (total, runnable, blocked) = scheduler.stats();
    assert_eq!(total, 0);
    assert_eq!(runnable, 0);
    assert_eq!(blocked, 0);
}

#[test]
fn ready_queue_is_fifo() {
    let mut q = ReadyQueue::new();
    assert!(q.is_empty());
    assert!(q.try_pop().is_none());
    let mut pool = StackPool::new();
    q.push(ready(1, 128, &mut pool));
    q.push(ready(2, 128, &mut pool));
    assert_eq!(q.len(), 2);
    assert_eq!(q.try_pop().unwrap().id(), ThreadId::new(1));
    assert_eq!(q.try_pop().unwrap().id(), ThreadId::new(2));
    assert!(q.try_pop().is_none());
}

#[test]
fn fifo_within_class() {
    let mut pool = StackPool::new();
    let mut sched = RoundRobinScheduler::new(1);
    for id in 1..=4u64 {
        sched.enqueue(ready(id, 128, &mut pool));
    }
    for id in 1..=4u64 {
        let picked = sched.pick_next(0).unwrap();
        assert_eq!(picked.id(), ThreadId::new(id));
    }
    assert!(sched.pick_next(0).is_none());
}

#[test]
fn pick_order_prefers_higher_class() {
    let mut pool = StackPool::new();
    let mut sched = RoundRobinScheduler::new(1);
    sched.enqueue(ready(1, 0, &mut pool));
    sched.enqueue(ready(2, 32, &mut pool));
    sched.enqueue(ready(3, 128, &mut pool));
    sched.enqueue(ready(4, 200, &mut pool));
    assert_eq!(sched.pick_next(0).unwrap().id(), ThreadId::new(4));
    assert_eq!(sched.pick_next(0).unwrap().id(), ThreadId::new(3));
    assert_eq!(sched.pick_next(0).unwrap().id(), ThreadId::new(2));
    assert_eq!(sched.pick_next(0).unwrap().id(), ThreadId::new(1));
}

#[test]
fn pick_next_rejects_unknown_cpu() {
    let mut pool = StackPool::new();
    let mut sched = RoundRobinScheduler::new(1);
    sched.enqueue(ready(1, 128, &mut pool));
    assert!(sched.pick_next(1).is_none());
    assert!(sched.pick_next(0).is_some());
}

#[test]
fn idle_thread_preempted_by_higher_class_on_tick() {
    let mut pool = StackPool::new();
    let mut sched = RoundRobinScheduler::new(1);

    let idle = ready(1, 0, &mut pool);
    let mut running = idle.start_running(Instant::from_nanos(1_000_000));
    sched.enqueue(ready(2, 128, &mut pool));

    // quantum for priority 0 is 500_000 ns; the first tick after that has
    // the slice expired, so the waiting Normal thread takes over.
    let replacement = sched.on_tick(&mut running, Instant::from_nanos(1_600_000));
    assert_eq!(replacement.unwrap().id(), ThreadId::new(2));
}

#[test]
fn on_tick_keeps_thread_before_quantum_expires() {
    let mut pool = StackPool::new();
    let mut sched = RoundRobinScheduler::new(1);

    let idle = ready(1, 0, &mut pool);
    let mut running = idle.start_running(Instant::from_nanos(1_000_000));
    sched.enqueue(ready(2, 128, &mut pool));

    let replacement = sched.on_tick(&mut running, Instant::from_nanos(1_100_000));
    assert!(replacement.is_none());
}

#[test]
fn normal_thread_only_preempted_by_high() {
    let mut pool = StackPool::new();
    let mut sched = RoundRobinScheduler::new(1);

    let normal = ready(1, 128, &mut pool);
    let mut running = normal.start_running(Instant::from_nanos(1_000_000));
    sched.enqueue(ready(2, 32, &mut pool));

    // Expired quantum, but only a Low thread waits: no preemption.
    assert!(sched.on_tick(&mut running, Instant::from_nanos(10_000_000)).is_none());

    sched.enqueue(ready(3, 200, &mut pool));
    let replacement = sched.on_tick(&mut running, Instant::from_nanos(20_000_000));
    assert_eq!(replacement.unwrap().id(), ThreadId::new(3));
}

#[test]
fn fcfs_never_preempts_on_tick() {
    let mut pool = StackPool::new();
    let mut sched = FirstComeFirstServeScheduler::new(1);
    sched.enqueue(ready(2, 200, &mut pool));
    let first = ready(1, 0, &mut pool);
    let mut running = first.start_running(Instant::from_nanos(0));
    assert!(sched.on_tick(&mut running, Instant::from_nanos(100_000_000)).is_none());
}

#[test]
fn fcfs_orders_by_arrival() {
    let mut pool = StackPool::new();
    let mut sched = FirstComeFirstServeScheduler::new(1);
    sched.enqueue(ready(1, 0, &mut pool));
    sched.enqueue(ready(2, 255, &mut pool));
    sched.enqueue(ready(3, 128, &mut pool));
    assert_eq!(sched.pick_next(0).unwrap().id(), ThreadId::new(1));
    assert_eq!(sched.pick_next(0).unwrap().id(), ThreadId::new(2));
    assert_eq!(sched.pick_next(0).unwrap().id(), ThreadId::new(3));
}

#[test]
fn on_yield_requeues_at_back() {
    let mut pool = StackPool::new();
    let mut sched = RoundRobinScheduler::new(1);
    sched.enqueue(ready(1, 128, &mut pool));
    sched.enqueue(ready(2, 128, &mut pool));

    let picked = sched.pick_next(0).unwrap();
    assert_eq!(picked.id(), ThreadId::new(1));
    let running = picked.start_running(Instant::from_nanos(0));
    sched.on_yield(running);

    assert_eq!(sched.pick_next(0).unwrap().id(), ThreadId::new(2));
    assert_eq!(sched.pick_next(0).unwrap().id(), ThreadId::new(1));
}
