use preemptive_threads::mem::stack_pool::{Stack, StackPool, StackSizeClass, DEFAULT_STACK_CANARY};

#[test]
fn test_stack_size_class_for_size() {
    assert_eq!(StackSizeClass::for_size(1024), Some(StackSizeClass::Small));
    assert_eq!(StackSizeClass::for_size(4096), Some(StackSizeClass::Small));
    assert_eq!(StackSizeClass::for_size(8192), Some(StackSizeClass::Medium));
    assert_eq!(StackSizeClass::for_size(32768), Some(StackSizeClass::Large));
    assert_eq!(StackSizeClass::for_size(131072), Some(StackSizeClass::ExtraLarge));
    assert_eq!(StackSizeClass::for_size(500000), None);
}

#[test]
fn test_stack_pool_basic() {
    let mut pool = StackPool::new();
    let stack = pool.allocate(StackSizeClass::Small).unwrap();

    assert_eq!(stack.size_class(), StackSizeClass::Small);
    assert_eq!(stack.size(), StackSizeClass::Small.size());

    pool.deallocate(stack);

    let (allocated, deallocated, in_use) = pool.stats();
    assert_eq!(allocated, 1);
    assert_eq!(deallocated, 1);
    assert_eq!(in_use, 0);
}

#[test]
fn test_stack_canary() {
    let mut pool = StackPool::new();
    let mut stack = pool.allocate(StackSizeClass::Small).unwrap();

    let canary_value = 0xDEADBEEFCAFEBABE;
    stack.install_canary(canary_value);
    assert!(stack.check_canary(canary_value));
    assert!(!stack.check_canary(0x1234567890ABCDEF));

    pool.deallocate(stack);
}

#[test]
fn stack_size_classes_sizes() {
    assert_eq!(StackSizeClass::Small.size(), 4096);
    assert_eq!(StackSizeClass::Medium.size(), 16384);
    assert_eq!(StackSizeClass::Large.size(), 65536);
    assert_eq!(StackSizeClass::ExtraLarge.size(), 262144);
}

#[test]
fn stack_bottom_is_sixteen_byte_aligned() {
    let mut pool = StackPool::new();
    for class in [
        StackSizeClass::Small,
        StackSizeClass::Medium,
        StackSizeClass::Large,
        StackSizeClass::ExtraLarge,
    ] {
        let stack = pool.allocate(class).unwrap();
        assert_eq!(stack.stack_bottom() % 16, 0);
        assert_eq!(stack.stack_bottom(), class.size());
        assert_eq!(stack.stack_top(), 0);
        assert!(!stack.has_guard_pages());
        pool.deallocate(stack);
    }
}

#[test]
fn stack_pool_capacity_exhausted() {
    let mut pool = StackPool::with_capacity(1);
    let first = pool.allocate(StackSizeClass::Small);
    assert!(first.is_some());
    let second = pool.allocate(StackSizeClass::Small);
    assert!(second.is_none());
    pool.deallocate(first.unwrap());
    let third = pool.allocate(StackSizeClass::Small);
    assert!(third.is_some());
}

#[test]
fn canary_survives_pool_round_trip() {
    let mut pool = StackPool::new();
    let mut stack = pool.allocate(StackSizeClass::Small).unwrap();
    stack.install_canary(DEFAULT_STACK_CANARY);
    assert!(stack.check_canary(DEFAULT_STACK_CANARY));
    pool.deallocate(stack);
    let reused: Stack = pool.allocate(StackSizeClass::Small).unwrap();
    assert!(reused.check_canary(DEFAULT_STACK_CANARY));
}
