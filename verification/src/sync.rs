//! Trusted boundary to the standard library's mutex and condition variable.
//!
//! Nothing in this module is proved. A value behind a mutex may be changed by
//! any thread between two critical sections, so none of these items promises
//! anything about the guarded value: verified callers work for every value
//! they may find there.

use std::sync::Condvar;
use std::sync::Mutex;
use std::sync::MutexGuard;
use vstd::prelude::*;

verus! {

#[verifier::external_type_specification]
#[verifier::external_body]
#[verifier::reject_recursive_types(T)]
pub struct ExMutex<T: ?Sized>(Mutex<T>);

#[verifier::external_type_specification]
#[verifier::external_body]
#[verifier::reject_recursive_types(T)]
pub struct ExMutexGuard<'a, T: ?Sized + 'a>(MutexGuard<'a, T>);

#[verifier::external_type_specification]
#[verifier::external_body]
pub struct ExCondvar(Condvar);

/// `Mutex::new`: a fresh, unlocked mutex that owns `value`. Nothing is
/// claimed about the result.
#[verifier::external_body]
pub(crate) fn mutex_new<T>(value: T) -> (mutex: Mutex<T>) {
    Mutex::new(value)
}

/// `Mutex::lock`: blocks until the calling thread holds the lock. Nothing is
/// claimed about the guarded value. A poisoned mutex is fatal: the call
/// panics, as the state it guards can no longer be trusted. The callers in
/// this crate never lock a mutex they already hold, and run only verified,
/// panic-free code while holding one.
#[verifier::external_body]
pub(crate) fn mutex_lock<'a, T>(mutex: &'a Mutex<T>) -> (guard: MutexGuard<'a, T>) {
    mutex.lock().expect("mutex poisoned")
}

/// `DerefMut::deref_mut` of a `MutexGuard`: exclusive access to the guarded
/// value for as long as the guard is borrowed. Nothing is claimed about the
/// value found.
#[verifier::external_body]
pub(crate) fn guard_mut<'a, 'g, T>(guard: &'a mut MutexGuard<'g, T>) -> (value: &'a mut T) {
    &mut **guard
}

/// `Condvar::new`: a condition variable with no waiters.
#[verifier::external_body]
pub(crate) fn condvar_new() -> (condvar: Condvar) {
    Condvar::new()
}

/// `Condvar::notify_one`: wakes at most one thread waiting on `condvar`.
#[verifier::external_body]
pub(crate) fn notify_one(condvar: &Condvar) {
    condvar.notify_one()
}

/// `Condvar::notify_all`: wakes every thread waiting on `condvar`.
#[verifier::external_body]
pub(crate) fn notify_all(condvar: &Condvar) {
    condvar.notify_all()
}

} // verus!
