use std::sync::{Mutex, MutexGuard};
use vstd::prelude::*;

verus! {

#[verifier::external_type_specification]
#[verifier::external_body]
#[verifier::reject_recursive_types(T)]
pub struct ExMutex<T: ?Sized>(Mutex<T>);

#[verifier::external_type_specification]
#[verifier::external_body]
#[verifier::reject_recursive_types(T)]
pub struct ExMutexGuard<'a, T: ?Sized + 'a>(MutexGuard<'a, T>);

/// Relies on std::sync::Mutex::new: builds an unlocked, unpoisoned mutex.
pub assume_specification<T>[ Mutex::<T>::new ](t: T) -> Mutex<T>;

/// Relies on std::sync::Mutex::lock: it blocks until the calling thread holds
/// the lock and fails only when an earlier holder panicked while holding it.
/// The guard releases the lock when it is dropped. Taking the mutex by `&mut`
/// rules out a guard still alive on it, on which `lock` would never return.
/// Whether the lock was poisoned depends on what ran before, so nothing is
/// promised of the outcome.
#[verifier::external_body]
pub(crate) fn acquire(lock: &mut Mutex<()>) -> (r: Option<MutexGuard<'_, ()>>) {
    lock.lock().ok()
}

} // verus!
