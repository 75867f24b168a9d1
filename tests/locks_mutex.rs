use lock_hierarchy::{HierarchyViolation, LockLevels, Mutex};

#[test]
fn locks_mutex_acquire_resource() {
    let mut levels = LockLevels::new();
    let mutex = Mutex::new(42);
    let guard = mutex.lock(&mut levels, |m| m.lock()).unwrap();

    assert_eq!(42, *guard)
}

#[test]
#[should_panic]
fn mutex_self_deadlock_detected() {
    let mut levels = LockLevels::new();
    let mutex = Mutex::new(());
    let _guard_a = mutex.lock(&mut levels, |m| m.lock()).unwrap();
    // This must panic
    let _guard_b = mutex.lock(&mut levels, |m| m.lock()).unwrap();
}

#[test]
fn mutex_should_allow_mutation() {
    let mut levels = LockLevels::new();
    let mutex = Mutex::new(42);
    let mut guard = mutex.lock(&mut levels, |m| m.lock()).unwrap();

    *guard = 43;

    assert_eq!(43, *guard)
}

#[test]
#[should_panic]
fn mutex_should_panic_if_two_mutices_with_level_0_are_acquired() {
    let mut levels = LockLevels::new();
    let mutex_a = Mutex::new(()); // Level 0
    let mutex_b = Mutex::new(()); // also level 0

    // Fine, first mutex in thread
    let _guard_a = mutex_a.lock(&mut levels, |m| m.lock()).unwrap();
    // Must panic, lock hierarchy violation
    let _guard_b = mutex_b.lock(&mut levels, |m| m.lock()).unwrap();
}

#[test]
fn default_mutex_and_level_0_mutex_cannot_be_held_together() {
    // This test would fail if mutex_a had any level greater than 0.
    let mut levels = LockLevels::new();
    let mutex_a: Mutex<()> = Mutex::default(); // Level 0
    let mutex_b = Mutex::with_level((), 0); // also level 0

    // Fine, first mutex in thread
    let _guard_a = mutex_a.lock(&mut levels, |m| m.lock()).unwrap();
    // Lock hierarchy violation
    assert_eq!(
        levels.push(mutex_b.level()),
        Err(HierarchyViolation { requested: 0, held: 0 })
    );
}

#[test]
fn converted_mutex_and_level_0_mutex_cannot_be_held_together() {
    // This test would fail if mutex_a had any level greater than 0.
    let mut levels = LockLevels::new();
    let mutex_a: Mutex<u8> = 42.into(); // Level 0
    let mutex_b = Mutex::with_level(5, 0); // also level 0

    // Fine, first mutex in thread
    let _guard_a = mutex_a.lock(&mut levels, |m| m.lock()).unwrap();
    // Lock hierarchy violation
    assert_eq!(
        levels.push(mutex_b.level()),
        Err(HierarchyViolation { requested: 0, held: 0 })
    );
}

#[test]
#[should_panic]
fn should_panic_if_0_is_acquired_before_1() {
    let mut levels = LockLevels::new();
    let mutex_a = Mutex::new(()); // Level 0
    let mutex_b = Mutex::with_level((), 1); // Level 1

    // Fine, first mutex in thread
    let _guard_a = mutex_a.lock(&mut levels, |m| m.lock()).unwrap();
    // Must panic, lock hierarchy violation
    let _guard_b = mutex_b.lock(&mut levels, |m| m.lock()).unwrap();
}

#[test]
fn mutex_should_not_check_in_release_build() {
    let mut levels = LockLevels::unchecked();
    let mutex_a = Mutex::new(5); // Level 0
    let mutex_b = Mutex::new(42); // also level 0

    // Fine, first mutex in thread
    let _guard_a = mutex_a.lock(&mut levels, |m| m.lock()).unwrap();
    // Lock hierarchy violation, but nothing is checked
    let _guard_b = mutex_b.lock(&mut levels, |m| m.lock()).unwrap();
}

#[test]
fn mutex_should_allow_for_two_level_0_in_succession() {
    let mut levels = LockLevels::new();
    let mutex_a = Mutex::new(5); // Level 0
    let mutex_b = Mutex::new(42); // also level 0

    // Fine, first mutex in thread
    let guard_a = mutex_a.lock(&mut levels, |m| m.lock()).unwrap();
    guard_a.release(&mut levels);
    // Fine, first mutex has already been released
    let _guard_b = mutex_b.lock(&mut levels, |m| m.lock()).unwrap();
}

#[test]
fn should_allow_for_simultaneous_lock_if_higher_is_acquired_first() {
    let mut levels = LockLevels::new();
    let mutex_a = Mutex::with_level(5, 1); // Level 1
    let mutex_b = Mutex::new(42); // also level 0

    // Fine, first mutex in thread
    let _guard_a = mutex_a.lock(&mut levels, |m| m.lock()).unwrap();
    // Fine: 0 is lower level than 1
    let _guard_b = mutex_b.lock(&mut levels, |m| m.lock()).unwrap();
}

#[test]
fn mutex_should_allow_for_any_order_of_release() {
    let mut levels = LockLevels::new();
    let mutex_a = Mutex::with_level((), 2);
    let mutex_b = Mutex::with_level((), 1);
    let mutex_c = Mutex::new(());

    // Fine, first mutex in thread
    let _guard_a = mutex_a.lock(&mut levels, |m| m.lock()).unwrap();
    // Fine: 0 is lower level than 1
    let guard_b = mutex_b.lock(&mut levels, |m| m.lock()).unwrap();
    let _guard_c = mutex_c.lock(&mut levels, |m| m.lock()).unwrap();
    guard_b.release(&mut levels)
}
