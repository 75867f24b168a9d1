use lock_hierarchy::{LockLevels, Mutex};

#[test]
fn mutex_acquire_resource() {
    let mut levels = LockLevels::new();
    let mutex = Mutex::new(42);
    let guard = mutex.lock(&mut levels, |m| m.lock()).unwrap();

    assert_eq!(42, *guard)
}

#[test]
fn mutex_allow_mutation() {
    let mut levels = LockLevels::new();
    let mutex = Mutex::new(42);
    let mut guard = mutex.lock(&mut levels, |m| m.lock()).unwrap();

    *guard = 43;

    assert_eq!(43, *guard)
}

#[test]
#[should_panic(expected = "HierarchyViolation { requested: 0, held: 0 }")]
fn self_deadlock() {
    // The level is checked in Mutex::lock before the std mutex is locked,
    // which might otherwise cause an unchecked deadlock
    let mut levels = LockLevels::new();
    let mutex = Mutex::new(());
    let _guard = mutex.lock(&mut levels, |m| m.lock()).unwrap();
    let _guard = mutex.lock(&mut levels, |m| m.lock()).unwrap();
}

#[test]
fn mutex_correct_level_locked() {
    let mut levels = LockLevels::new();
    let mutex = Mutex::with_level((), 1);
    let guard_a = mutex.lock(&mut levels, |m| m.lock()).unwrap();
    assert_eq!(guard_a.level(), 1);

    let mutex = Mutex::new(());
    let guard_a = mutex.lock(&mut levels, |m| m.lock()).unwrap();
    assert_eq!(guard_a.level(), 0);
}

#[test]
fn mutex_created_by_default_impl_should_be_level_0() {
    let mutex = Mutex::<()>::default();
    assert_eq!(mutex.level(), 0);
}

#[test]
fn mutex_mutex_created_by_from_impl_should_be_level_0() {
    let mutex: Mutex<u8> = 42.into();
    assert_eq!(mutex.level(), 0);
}
