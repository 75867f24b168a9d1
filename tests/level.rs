use lock_hierarchy::{Level, LockLevels};

#[test]
#[should_panic(expected = "HierarchyViolation { requested: 0, held: 0 }")]
fn level_self_deadlock_detected() {
    let mut levels = LockLevels::new();
    let mutex = Level::new(0);
    let _guard_a = mutex.lock(&mut levels);
    // This must panic
    let _guard_b = mutex.lock(&mut levels);
}

#[test]
#[should_panic(expected = "HierarchyViolation { requested: 0, held: 0 }")]
fn panic_if_two_mutexes_with_level_0_are_acquired() {
    let mut levels = LockLevels::new();
    let mutex_a = Level::new(0);
    let mutex_b = Level::new(0);

    // Fine, first mutex in thread
    let _guard_a = mutex_a.lock(&mut levels);
    // Must panic, lock hierarchy violation
    let _guard_b = mutex_b.lock(&mut levels);
}

#[test]
fn level_created_by_default_impl_should_be_level_0() {
    // This test would fail if mutex_a had any level greater than 0.
    let mutex = Level::default();
    assert_eq!(mutex.value(), 0);
}

#[test]
#[should_panic(expected = "HierarchyViolation { requested: 1, held: 0 }")]
fn panic_if_0_is_acquired_before_1() {
    let mut levels = LockLevels::new();
    let mutex_a = Level::new(0); // Level 0
    let mutex_b = Level::new(1); // Level 1

    // Fine, first mutex in thread
    let _guard_a = mutex_a.lock(&mut levels);
    // Must panic, lock hierarchy violation
    let _guard_b = mutex_b.lock(&mut levels);
}

#[test]
fn level_should_not_check_in_release_build() {
    let mut levels = LockLevels::unchecked();
    let mutex_a = Level::new(0);
    let mutex_b = Level::new(0);

    // Fine, first mutex in thread
    let _guard_a = mutex_a.lock(&mut levels);
    // Lock hierarchy violation, but nothing is checked
    let _guard_b = mutex_b.lock(&mut levels);
    assert!(levels.held().is_empty());
}

#[test]
fn two_level_0_in_succession() {
    let mut levels = LockLevels::new();
    let mutex_a = Level::new(5);
    let mutex_b = Level::new(42);
    {
        // Fine, first mutex in thread
        let guard_a = mutex_a.lock(&mut levels);
        guard_a.release(&mut levels);
    }
    // Fine, first mutex has already been released
    let _guard_b = mutex_b.lock(&mut levels);
    assert_eq!(levels.held(), &[42]);
}

#[test]
fn simultaneous_lock_if_higher_is_acquired_first() {
    let mut levels = LockLevels::new();
    let mutex_a = Level::new(1);
    let mutex_b = Level::new(0);

    // Fine, first mutex in thread
    let _guard_a = mutex_a.lock(&mut levels);
    // Fine: 0 is lower level than 1
    let _guard_b = mutex_b.lock(&mut levels);
    assert_eq!(levels.held(), &[1, 0]);
}

#[test]
fn any_order_of_release() {
    let mut levels = LockLevels::new();
    let mutex_a = Level::new(2);
    let mutex_b = Level::new(1);
    let mutex_c = Level::new(0);

    // Fine, first mutex in thread
    let _guard_a = mutex_a.lock(&mut levels);
    // Fine: 0 is lower level than 1
    let guard_b = mutex_b.lock(&mut levels);
    let _guard_c = mutex_c.lock(&mut levels);
    guard_b.release(&mut levels);
    assert_eq!(levels.held(), &[2, 0]);
}
