use preemptive_threads::arch::aarch64::timer_compare_ticks;
use preemptive_threads::time::{
    Duration, Instant, TickCounter, TimeSlice, DEFAULT_QUANTUM_NS, TIMER_FREQUENCY_HZ,
};

#[test]
fn test_tick_counter() {
    let mut counter = TickCounter::new(1000);
    assert_eq!(counter.ticks(), 0);
    assert_eq!(counter.frequency(), 1000);

    counter.increment();
    assert_eq!(counter.ticks(), 1);

    assert_eq!(counter.ticks_to_nanos(1000), 1_000_000_000);
    assert_eq!(counter.nanos_to_ticks(1_000_000_000), 1000);
}

#[test]
fn test_time_slice() {
    let mut slice = TimeSlice::new(100);
    assert_eq!(slice.priority(), 100);
    assert_eq!(slice.vruntime(), 0);

    let start_time = Instant::from_nanos(1000000);
    slice.start_slice(start_time);

    assert!(!slice.update_vruntime(start_time));

    let end_time = Instant::from_nanos(start_time.as_nanos() + DEFAULT_QUANTUM_NS + 1);
    assert!(slice.update_vruntime(end_time));
}

#[test]
fn test_priority_quantum_calculation() {
    let low_prio = TimeSlice::new(32);
    let normal_prio = TimeSlice::new(128);
    let high_prio = TimeSlice::new(200);

    assert!(high_prio.quantum() > normal_prio.quantum());
    assert!(normal_prio.quantum() > low_prio.quantum());
}

#[test]
fn quantum_values_per_class() {
    assert_eq!(TimeSlice::new(0).quantum(), DEFAULT_QUANTUM_NS / 2);
    assert_eq!(TimeSlice::new(100).quantum(), DEFAULT_QUANTUM_NS);
    assert_eq!(TimeSlice::new(150).quantum(), DEFAULT_QUANTUM_NS * 2);
    assert_eq!(TimeSlice::new(255).quantum(), DEFAULT_QUANTUM_NS * 4);
}

#[test]
fn vruntime_scales_with_priority_factor() {
    // priority 32 has factor 500: one millisecond of real time doubles into
    // two milliseconds of virtual time.
    let mut slice = TimeSlice::new(32);
    slice.start_slice(Instant::from_nanos(1_000_000));
    slice.update_vruntime(Instant::from_nanos(2_000_000));
    assert_eq!(slice.vruntime(), 2_000_000);

    // priority 200 has factor 2000: virtual time accumulates at half speed.
    let mut fast = TimeSlice::new(200);
    fast.start_slice(Instant::from_nanos(1_000_000));
    fast.update_vruntime(Instant::from_nanos(2_000_000));
    assert_eq!(fast.vruntime(), 500_000);
}

#[test]
fn duration_conversions() {
    assert_eq!(Duration::from_millis(5).as_nanos(), 5_000_000);
    assert_eq!(Duration::from_micros(7).as_nanos(), 7_000);
    assert_eq!(Duration::from_nanos(1_234_567).as_micros(), 1_234);
    assert_eq!(Duration::from_nanos(1_234_567).as_millis(), 1);
    assert_eq!(Duration::from_nanos(42).as_nanos_u128(), 42u128);
}

#[test]
fn instant_arithmetic() {
    let a = Instant::from_nanos(200);
    let b = Instant::from_nanos(500);
    assert_eq!(b.duration_since(a).as_nanos(), 300);
    assert_eq!(b.as_nanos_u128(), 500u128);
    assert_eq!(TIMER_FREQUENCY_HZ, 1000);
}

#[test]
fn timer_interval_with_zero_frequency_is_an_error() {
    assert!(timer_compare_ticks(0, 1000).is_err());
}

#[test]
fn timer_interval_ticks_exact() {
    assert_eq!(timer_compare_ticks(62_500_000, 1000), Ok(62_500));
    assert_eq!(timer_compare_ticks(1_000_000, 1_000_000), Ok(1_000_000));
}
