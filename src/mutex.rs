//! A mutex that checks the lock hierarchy before it locks.
use vstd::prelude::*;

use std::ops::{Deref, DerefMut};

use crate::hierarchy::{admits, after_acquire, after_release, may_release};
use crate::level::{Level, LevelGuard, LockLevels};
use crate::poison::{from_std, map_guard, LockResult};
use crate::std_locks::mutex_into_inner;

verus! {

/// A std mutex with a level in the lock hierarchy. Locking it first checks its
/// level against the levels the thread holds, then locks the std mutex.
#[derive(Debug)]
#[verifier::reject_recursive_types(T)]
pub struct Mutex<T> {
    inner: std::sync::Mutex<T>,
    level: Level,
}

impl<T> Mutex<T> {
    pub closed spec fn spec_level(&self) -> u32 {
        self.level@
    }

    /// A mutex of level 0: while it is held, the thread can acquire no other
    /// lock.
    pub fn new(t: T) -> (r: Self)
        ensures
            r.level() == 0,
    {
        Self::with_level(t, 0)
    }

    /// A mutex of the given level. Of locks held at once, those of higher
    /// levels are acquired first.
    pub fn with_level(t: T, level: u32) -> (r: Self)
        ensures
            r.level() == level,
    {
        Mutex { inner: std::sync::Mutex::new(t), level: Level::new(level) }
    }

    /// The level of this mutex.
    #[verifier::when_used_as_spec(spec_level)]
    pub fn level(&self) -> (r: u32)
        ensures
            r == self.level(),
    {
        self.level.value()
    }

    /// Records the level of this mutex among the held levels, then hands the
    /// std mutex to `acquire`, which locks the mutex (most often `|l| l.lock()`), and
    /// joins what it returns with the level: a poisoned lock is reported with
    /// the guard inside the error. The level is checked and recorded before
    /// `acquire` runs, so that a thread never blocks on a lock that breaks the
    /// hierarchy.
    pub fn lock<'a, F>(&'a self, levels: &mut LockLevels, acquire: F) -> (r: LockResult<MutexGuard<'a, T>>)
        where
            F: FnOnce(&'a std::sync::Mutex<T>) -> std::sync::LockResult<std::sync::MutexGuard<'a, T>>,
        requires
            admits(old(levels).is_checked(), old(levels)@, self.level()),
            forall|l: &'a std::sync::Mutex<T>| acquire.requires((l,)),
        ensures
            final(levels).is_checked() == old(levels).is_checked(),
            final(levels)@ == after_acquire(old(levels).is_checked(), old(levels)@, self.level()),
            r matches Ok(g) ==> g.level() == self.level(),
            r matches Err(e) ==> e@.level() == self.level(),
            exists|l: &'a std::sync::Mutex<T>, a: std::sync::LockResult<std::sync::MutexGuard<'a, T>>|
                #[trigger] acquire.ensures((l,), a) && (r is Ok <==> a is Ok),
    {
        let level = self.level.lock(levels);
        let acquired = acquire(&self.inner);
        let ghost returned = acquired;
        let r = map_guard(acquired, level, MutexGuard::new);
        assert(acquire.ensures((&self.inner,), returned));
        r
    }

    /// The payload, through the exclusive borrow of the mutex: no lock is
    /// taken and no level is checked.
    pub fn get_mut(&mut self) -> (r: LockResult<&mut T>)
        ensures
            final(self).level() == old(self).level(),
    {
        from_std(self.inner.get_mut())
    }

    /// The payload, consuming the mutex: no lock is taken and no level is
    /// checked.
    pub fn into_inner(self) -> LockResult<T> {
        from_std(mutex_into_inner(self.inner))
    }
}

impl<T: Default> Default for Mutex<T> {
    fn default() -> (r: Self)
        ensures
            r.level() == 0,
    {
        Mutex::new(T::default())
    }
}

impl<T> From<T> for Mutex<T> {
    /// The same as [`Mutex::new`].
    fn from(t: T) -> (r: Self)
        ensures
            r.level() == 0,
    {
        Mutex::new(t)
    }
}

/// A mutex is opaque to specifications, so `from` is described by its own
/// `ensures` alone.
impl<T> vstd::std_specs::convert::FromSpecImpl<T> for Mutex<T> {
    open spec fn obeys_from_spec() -> bool {
        false
    }

    open spec fn from_spec(v: T) -> Self {
        arbitrary()
    }
}

/// Access to the payload of a locked [`Mutex`], together with the token of its
/// level. Releasing it unlocks the mutex and gives the level back.
#[derive(Debug)]
#[verifier::reject_recursive_types(T)]
pub struct MutexGuard<'a, T> {
    inner: std::sync::MutexGuard<'a, T>,
    level: LevelGuard,
}

impl<'a, T> MutexGuard<'a, T> {
    pub closed spec fn spec_level(&self) -> u32 {
        self.level@
    }

    fn new(inner: std::sync::MutexGuard<'a, T>, level: LevelGuard) -> (r: Self)
        ensures
            r.level() == level@,
    {
        MutexGuard { inner, level }
    }

    /// The level of the locked mutex.
    #[verifier::when_used_as_spec(spec_level)]
    pub fn level(&self) -> (r: u32)
        ensures
            r == self.level(),
    {
        self.level.level()
    }

    /// Unlocks the mutex and gives its level back. Guards of one thread may be
    /// released in any order.
    pub fn release(self, levels: &mut LockLevels)
        requires
            may_release(old(levels).is_checked(), old(levels)@, self.level()),
        ensures
            final(levels).is_checked() == old(levels).is_checked(),
            final(levels)@ == after_release(old(levels).is_checked(), old(levels)@, self.level()),
    {
        let MutexGuard { inner: _unlocked_on_return, level } = self;
        level.release(levels);
    }
}

impl<'a, T> Deref for MutexGuard<'a, T> {
    type Target = T;

    /// Relies on the Deref impl of std's guard: shared access to the payload.
    #[verifier::external_body]
    fn deref(&self) -> &T {
        self.inner.deref()
    }
}

impl<'a, T> DerefMut for MutexGuard<'a, T> {
    /// Relies on the DerefMut impl of std's guard: exclusive access to the
    /// payload.
    #[verifier::external_body]
    fn deref_mut(&mut self) -> &mut T {
        self.inner.deref_mut()
    }
}

} // verus!
