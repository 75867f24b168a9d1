//! std's locks, as this library relies on them.
//!
//! The payload of a std lock is invisible to Verus, and whether a lock is
//! poisoned depends on what other threads did; so these items promise nothing
//! of the values they hand back. The blocking acquisitions are not among them:
//! the caller of a lock hands those in.
use vstd::prelude::*;

verus! {

#[verifier::external_type_specification]
#[verifier::external_body]
#[verifier::reject_recursive_types(T)]
pub struct ExStdMutex<T: ?Sized>(std::sync::Mutex<T>);

#[verifier::external_type_specification]
#[verifier::external_body]
#[verifier::reject_recursive_types(T)]
pub struct ExStdMutexGuard<'a, T: ?Sized + 'a>(std::sync::MutexGuard<'a, T>);

#[verifier::external_type_specification]
#[verifier::external_body]
#[verifier::reject_recursive_types(T)]
pub struct ExStdPoisonError<T>(std::sync::PoisonError<T>);

/// Relies on std::sync::Mutex::new: an unlocked mutex around `t`.
pub assume_specification<T>[ std::sync::Mutex::<T>::new ](t: T) -> std::sync::Mutex<T>;

/// Relies on std::sync::Mutex::get_mut: the payload, without locking.
pub assume_specification<'a, T: ?Sized>[ std::sync::Mutex::<T>::get_mut ](
    m: &'a mut std::sync::Mutex<T>,
) -> std::sync::LockResult<&'a mut T>;

/// Relies on std::sync::Mutex::into_inner: the payload, consuming the mutex.
#[verifier::external_body]
pub(crate) fn mutex_into_inner<T>(m: std::sync::Mutex<T>) -> std::sync::LockResult<T> {
    m.into_inner()
}

/// Relies on std::sync::PoisonError::into_inner: hands back the wrapped guard.
pub assume_specification<T>[ std::sync::PoisonError::<T>::into_inner ](
    e: std::sync::PoisonError<T>,
) -> T;

#[verifier::external_type_specification]
#[verifier::external_body]
#[verifier::reject_recursive_types(T)]
pub struct ExStdRwLock<T: ?Sized>(std::sync::RwLock<T>);

#[verifier::external_type_specification]
#[verifier::external_body]
#[verifier::reject_recursive_types(T)]
pub struct ExStdRwLockReadGuard<'a, T: ?Sized>(std::sync::RwLockReadGuard<'a, T>);

#[verifier::external_type_specification]
#[verifier::external_body]
#[verifier::reject_recursive_types(T)]
pub struct ExStdRwLockWriteGuard<'a, T: ?Sized + 'a>(std::sync::RwLockWriteGuard<'a, T>);

/// Relies on std::sync::RwLock::new: an unlocked reader-writer lock around `t`.
pub assume_specification<T>[ std::sync::RwLock::<T>::new ](t: T) -> std::sync::RwLock<T>;

/// Relies on std::sync::RwLock::get_mut: the payload, without locking.
pub assume_specification<'a, T: ?Sized>[ std::sync::RwLock::<T>::get_mut ](
    l: &'a mut std::sync::RwLock<T>,
) -> std::sync::LockResult<&'a mut T>;

/// Relies on std::sync::RwLock::into_inner: the payload, consuming the lock.
#[verifier::external_body]
pub(crate) fn rwlock_into_inner<T>(l: std::sync::RwLock<T>) -> std::sync::LockResult<T> {
    l.into_inner()
}

} // verus!
