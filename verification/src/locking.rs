//! The trusted boundary to `std::sync::Mutex`, the lock that guards a
//! cell's slot.
//!
//! The mutex and its guard are opaque here: nothing is claimed about what
//! the slot holds, since any number of threads may change it between two
//! acquisitions. The callers take whatever value comes out of the slot and
//! run verified code on it while the guard is alive.

use std::sync::Mutex;
use std::sync::MutexGuard;
use vstd::prelude::*;

verus! {

#[verifier::external_type_specification]
#[verifier::external_body]
#[verifier::reject_recursive_types(T)]
pub struct ExMutex<T: ?Sized>(Mutex<T>);

#[verifier::external_type_specification]
#[verifier::external_body]
#[verifier::reject_recursive_types(T)]
pub struct ExMutexGuard<'a, T: ?Sized + 'a>(MutexGuard<'a, T>);

/// Relies on std::sync::Mutex::lock: blocks until the calling thread holds
/// the lock, then returns the guard; yields `None` exactly when the lock is
/// poisoned because a previous holder panicked while holding it. As with
/// the mutex itself, a thread that already holds the lock and acquires it
/// again deadlocks or panics, so an action run under the lock must not call
/// back into the same cell.
#[verifier::external_body]
pub(crate) fn lock_slot<'a, T: ?Sized>(m: &'a Mutex<T>) -> Option<MutexGuard<'a, T>> {
    m.lock().ok()
}

/// Relies on std::mem::replace: swaps `value` into the slot the guard
/// protects and hands back what the slot held before the call.
#[verifier::external_body]
pub(crate) fn guard_replace<'a, T>(guard: &mut MutexGuard<'a, T>, value: T) -> T {
    std::mem::replace(&mut **guard, value)
}

} // verus!
