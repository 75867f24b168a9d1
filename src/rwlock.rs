//! A reader-writer lock that checks the lock hierarchy before it locks.
use vstd::prelude::*;

use std::ops::{Deref, DerefMut};

use crate::hierarchy::{admits, after_acquire, after_release, may_release};
use crate::level::{Level, LevelGuard, LockLevels};
use crate::poison::{from_std, map_guard, LockResult};
use crate::std_locks::rwlock_into_inner;

verus! {

/// A std reader-writer lock with a level in the lock hierarchy. Shared and
/// exclusive acquisitions alike first check its level against the levels the
/// thread holds. A thread that holds shared access cannot take it a second
/// time: std does not promise that this is free of deadlocks on every
/// platform, so it counts as acquiring the same level twice.
#[derive(Debug)]
#[verifier::reject_recursive_types(T)]
pub struct RwLock<T> {
    inner: std::sync::RwLock<T>,
    level: Level,
}

impl<T> RwLock<T> {
    pub closed spec fn spec_level(&self) -> u32 {
        self.level@
    }

    /// A lock of level 0: while it is held, the thread can acquire no other
    /// lock.
    pub fn new(t: T) -> (r: Self)
        ensures
            r.level() == 0,
    {
        Self::with_level(t, 0)
    }

    /// A lock of the given level. Of locks held at once, those of higher
    /// levels are acquired first.
    pub fn with_level(t: T, level: u32) -> (r: Self)
        ensures
            r.level() == level,
    {
        RwLock { inner: std::sync::RwLock::new(t), level: Level::new(level) }
    }

    /// The level of this lock.
    #[verifier::when_used_as_spec(spec_level)]
    pub fn level(&self) -> (r: u32)
        ensures
            r == self.level(),
    {
        self.level.value()
    }

    /// Records the level of this lock among the held levels, then hands the
    /// std lock to `acquire`, which takes shared access to the lock (most often `|l| l.read()`), and
    /// joins what it returns with the level: a poisoned lock is reported with
    /// the guard inside the error. The level is checked and recorded before
    /// `acquire` runs, so that a thread never blocks on a lock that breaks the
    /// hierarchy.
    pub fn read<'a, F>(&'a self, levels: &mut LockLevels, acquire: F) -> (r: LockResult<RwLockReadGuard<'a, T>>)
        where
            F: FnOnce(&'a std::sync::RwLock<T>) -> std::sync::LockResult<std::sync::RwLockReadGuard<'a, T>>,
        requires
            admits(old(levels).is_checked(), old(levels)@, self.level()),
            forall|l: &'a std::sync::RwLock<T>| acquire.requires((l,)),
        ensures
            final(levels).is_checked() == old(levels).is_checked(),
            final(levels)@ == after_acquire(old(levels).is_checked(), old(levels)@, self.level()),
            r matches Ok(g) ==> g.level() == self.level(),
            r matches Err(e) ==> e@.level() == self.level(),
            exists|l: &'a std::sync::RwLock<T>, a: std::sync::LockResult<std::sync::RwLockReadGuard<'a, T>>|
                #[trigger] acquire.ensures((l,), a) && (r is Ok <==> a is Ok),
    {
        let level = self.level.lock(levels);
        let acquired = acquire(&self.inner);
        let ghost returned = acquired;
        let r = map_guard(acquired, level, RwLockReadGuard::new);
        assert(acquire.ensures((&self.inner,), returned));
        r
    }

    /// Records the level of this lock among the held levels, then hands the
    /// std lock to `acquire`, which takes exclusive access to the lock (most often `|l| l.write()`), and
    /// joins what it returns with the level: a poisoned lock is reported with
    /// the guard inside the error. The level is checked and recorded before
    /// `acquire` runs, so that a thread never blocks on a lock that breaks the
    /// hierarchy.
    pub fn write<'a, F>(&'a self, levels: &mut LockLevels, acquire: F) -> (r: LockResult<RwLockWriteGuard<'a, T>>)
        where
            F: FnOnce(&'a std::sync::RwLock<T>) -> std::sync::LockResult<std::sync::RwLockWriteGuard<'a, T>>,
        requires
            admits(old(levels).is_checked(), old(levels)@, self.level()),
            forall|l: &'a std::sync::RwLock<T>| acquire.requires((l,)),
        ensures
            final(levels).is_checked() == old(levels).is_checked(),
            final(levels)@ == after_acquire(old(levels).is_checked(), old(levels)@, self.level()),
            r matches Ok(g) ==> g.level() == self.level(),
            r matches Err(e) ==> e@.level() == self.level(),
            exists|l: &'a std::sync::RwLock<T>, a: std::sync::LockResult<std::sync::RwLockWriteGuard<'a, T>>|
                #[trigger] acquire.ensures((l,), a) && (r is Ok <==> a is Ok),
    {
        let level = self.level.lock(levels);
        let acquired = acquire(&self.inner);
        let ghost returned = acquired;
        let r = map_guard(acquired, level, RwLockWriteGuard::new);
        assert(acquire.ensures((&self.inner,), returned));
        r
    }

    /// The payload, through the exclusive borrow of the lock: no lock is taken
    /// and no level is checked.
    pub fn get_mut(&mut self) -> (r: LockResult<&mut T>)
        ensures
            final(self).level() == old(self).level(),
    {
        from_std(self.inner.get_mut())
    }

    /// The payload, consuming the lock: no lock is taken and no level is
    /// checked.
    pub fn into_inner(self) -> LockResult<T> {
        from_std(rwlock_into_inner(self.inner))
    }
}

impl<T: Default> Default for RwLock<T> {
    fn default() -> (r: Self)
        ensures
            r.level() == 0,
    {
        RwLock::new(T::default())
    }
}

impl<T> From<T> for RwLock<T> {
    /// The same as [`RwLock::new`].
    fn from(t: T) -> (r: Self)
        ensures
            r.level() == 0,
    {
        RwLock::new(t)
    }
}

/// A lock is opaque to specifications, so `from` is described by its own
/// `ensures` alone.
impl<T> vstd::std_specs::convert::FromSpecImpl<T> for RwLock<T> {
    open spec fn obeys_from_spec() -> bool {
        false
    }

    open spec fn from_spec(v: T) -> Self {
        arbitrary()
    }
}

/// Shared access to the payload of an [`RwLock`], together with the token of
/// its level. Releasing it gives up the access and the level.
#[derive(Debug)]
#[verifier::reject_recursive_types(T)]
pub struct RwLockReadGuard<'a, T> {
    inner: std::sync::RwLockReadGuard<'a, T>,
    level: LevelGuard,
}

impl<'a, T> RwLockReadGuard<'a, T> {
    pub closed spec fn spec_level(&self) -> u32 {
        self.level@
    }

    fn new(inner: std::sync::RwLockReadGuard<'a, T>, level: LevelGuard) -> (r: Self)
        ensures
            r.level() == level@,
    {
        RwLockReadGuard { inner, level }
    }

    /// The level of the lock.
    #[verifier::when_used_as_spec(spec_level)]
    pub fn level(&self) -> (r: u32)
        ensures
            r == self.level(),
    {
        self.level.level()
    }

    /// Gives up shared access and the level. Guards of one thread may be
    /// released in any order.
    pub fn release(self, levels: &mut LockLevels)
        requires
            may_release(old(levels).is_checked(), old(levels)@, self.level()),
        ensures
            final(levels).is_checked() == old(levels).is_checked(),
            final(levels)@ == after_release(old(levels).is_checked(), old(levels)@, self.level()),
    {
        let RwLockReadGuard { inner: _unlocked_on_return, level } = self;
        level.release(levels);
    }
}

impl<'a, T> Deref for RwLockReadGuard<'a, T> {
    type Target = T;

    /// Relies on the Deref impl of std's guard: shared access to the payload.
    #[verifier::external_body]
    fn deref(&self) -> &T {
        self.inner.deref()
    }
}

/// Exclusive access to the payload of an [`RwLock`], together with the token
/// of its level. Releasing it gives up the access and the level.
#[derive(Debug)]
#[verifier::reject_recursive_types(T)]
pub struct RwLockWriteGuard<'a, T> {
    inner: std::sync::RwLockWriteGuard<'a, T>,
    level: LevelGuard,
}

impl<'a, T> RwLockWriteGuard<'a, T> {
    pub closed spec fn spec_level(&self) -> u32 {
        self.level@
    }

    fn new(inner: std::sync::RwLockWriteGuard<'a, T>, level: LevelGuard) -> (r: Self)
        ensures
            r.level() == level@,
    {
        RwLockWriteGuard { inner, level }
    }

    /// The level of the lock.
    #[verifier::when_used_as_spec(spec_level)]
    pub fn level(&self) -> (r: u32)
        ensures
            r == self.level(),
    {
        self.level.level()
    }

    /// Gives up exclusive access and the level. Guards of one thread may be
    /// released in any order.
    pub fn release(self, levels: &mut LockLevels)
        requires
            may_release(old(levels).is_checked(), old(levels)@, self.level()),
        ensures
            final(levels).is_checked() == old(levels).is_checked(),
            final(levels)@ == after_release(old(levels).is_checked(), old(levels)@, self.level()),
    {
        let RwLockWriteGuard { inner: _unlocked_on_return, level } = self;
        level.release(levels);
    }
}

impl<'a, T> Deref for RwLockWriteGuard<'a, T> {
    type Target = T;

    /// Relies on the Deref impl of std's guard: shared access to the payload.
    #[verifier::external_body]
    fn deref(&self) -> &T {
        self.inner.deref()
    }
}

impl<'a, T> DerefMut for RwLockWriteGuard<'a, T> {
    /// Relies on the DerefMut impl of std's guard: exclusive access to the
    /// payload.
    #[verifier::external_body]
    fn deref_mut(&mut self) -> &mut T {
        self.inner.deref_mut()
    }
}

} // verus!
