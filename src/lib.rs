//! Locks that check a lock hierarchy.
//!
//! Each lock is given a level. A thread that holds several locks at once must
//! acquire them from higher levels to lower ones; acquiring a level that is not
//! strictly below every level the thread holds is a violation of the hierarchy,
//! which could lead to deadlocks. The levels a thread holds are kept in a
//! [`LockLevels`] value that the thread hands to each acquisition and release.
//!
//! Verified callers prove that each acquisition respects the hierarchy. For
//! other callers the check runs before the underlying lock is touched, and a
//! violation panics, naming the requested level and the conflicting held one.
//!
//! A guard gives its level back through its `release` method. A guard that is
//! dropped instead unlocks the underlying lock but leaves its level recorded,
//! so that later acquisitions are checked as if it were still held.
//!
//! The blocking acquisition of the underlying std lock is handed in by the
//! caller, as a closure that receives the std lock (most often `|l| l.lock()`).
//! The library checks and records the level before that closure runs, so a
//! thread that breaks the hierarchy never blocks, and it joins what the
//! closure returns with the level. Whether a thread acquires a std lock that
//! it already holds is the caller's to avoid: std then deadlocks or panics.
//!
//! A thread is meant to keep a single [`LockLevels`] value and make all its
//! acquisitions through it. Neither that value nor a guard can leave its
//! thread, but nothing stops a thread from making a second value; the
//! hierarchy is then checked within each value only.
mod hierarchy;
mod level;
mod mutex;
mod poison;
mod rwlock;
mod std_locks;

pub use hierarchy::{
    acquires_downward, admits, after_acquire, after_release,
    lemma_acquire_keeps_order, lemma_downward_acquisitions_succeed, lemma_position_of,
    lemma_release_in_any_order, lemma_release_keeps_order, lemma_second_not_below_is_refused,
    lemma_unchecked_never_refuses, may_release, position_of, releases, replay,
    strictly_descending, violation, LevelEvent,
};
pub use level::{HierarchyViolation, Level, LevelGuard, LockLevels};
pub use mutex::{Mutex, MutexGuard};
pub use poison::{LockResult, PoisonError};
pub use rwlock::{RwLock, RwLockReadGuard, RwLockWriteGuard};
