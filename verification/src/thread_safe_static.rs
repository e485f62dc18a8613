//! The synchronized cell: a mutex-guarded slot holding `Option<T>`.
//!
//! The slot's two lifecycle states are modeled as an `Option<T>`: `None` is
//! an empty (never set, or cleared) slot, `Some(v)` a populated one. Because
//! every access goes through the lock behind a shared reference, the state a
//! particular call observes is not visible in the types; the verified model
//! of each critical section is therefore a function on plain `Option<T>`
//! values (`with_step`, `cell_after_set`), and the lock-holding methods run
//! exactly those functions between acquiring and releasing the lock.

use crate::locking::guard_replace;
use crate::locking::lock_slot;
use std::sync::Mutex;
use vstd::prelude::*;

verus! {

/// Why a cell access failed.
#[derive(Clone, Copy, Debug, PartialEq, Eq, Structural)]
pub enum ThreadSafeStructErrorKind {
    /// The lock's previous holder panicked while holding it; the cell is
    /// suspect for the rest of the process lifetime.
    OtherThreadPanickedWithLock,
    /// The slot was empty: no `set(Some(_))` has happened yet, or the last
    /// `set` cleared it.
    ValueNotSet,
}

/// The error a cell access returns; carries nothing beyond its kind.
#[derive(Clone, Copy, Debug, PartialEq, Eq, Structural)]
pub struct ThreadSafeStructError {
    pub kind: ThreadSafeStructErrorKind,
}

impl ThreadSafeStructError {
    /// The human-readable description of this error.
    pub open spec fn spec_message(self) -> Seq<char> {
        match self.kind {
            ThreadSafeStructErrorKind::OtherThreadPanickedWithLock => {
                "Error getting lock, thread with lock panicked"@
            },
            ThreadSafeStructErrorKind::ValueNotSet => "Value was not set"@,
        }
    }

    /// Renders the error as text, one fixed message per kind.
    pub fn message(&self) -> (r: String)
        ensures
            r@ == self.spec_message(),
    {
        match self.kind {
            ThreadSafeStructErrorKind::OtherThreadPanickedWithLock => {
                "Error getting lock, thread with lock panicked".to_string()
            },
            ThreadSafeStructErrorKind::ValueNotSet => "Value was not set".to_string(),
        }
    }
}

/// The slot state after `set(value)`: the previous state is dropped whole
/// and replaced by `value`, populating (`Some`) or clearing (`None`) the cell.
pub open spec fn cell_after_set<T>(state: Option<T>, value: Option<T>) -> Option<T> {
    value
}

/// The value `with` hands its action when the slot is in `state`: the
/// populated value, or `None` when the slot is empty and no action runs.
pub open spec fn with_action_input<T>(state: Option<T>) -> Option<T> {
    state
}

/// The error `with` reports when the slot is empty.
pub open spec fn empty_slot_error() -> ThreadSafeStructError {
    ThreadSafeStructError { kind: ThreadSafeStructErrorKind::ValueNotSet }
}

/// The error `with` and `set` report when the lock is poisoned.
pub open spec fn poisoned_lock_error() -> ThreadSafeStructError {
    ThreadSafeStructError { kind: ThreadSafeStructErrorKind::OtherThreadPanickedWithLock }
}

/// One `with` critical section, as a function on the observed slot state.
///
/// On a populated slot the action maps the held value to its replacement
/// plus an output, which is returned as the `Ok` case; on an empty slot the
/// action is not invoked and the empty-slot error comes back.
pub fn with_step<T, R, F: FnOnce(T) -> (T, R)>(content: Option<T>, action: F) -> (res: (
    Option<T>,
    Result<R, ThreadSafeStructError>,
))
    requires
        content matches Some(t) ==> call_requires(action, (t,)),
    ensures
        with_action_input(content) is None ==> res.0 is None && res.1 == Err::<
            R,
            ThreadSafeStructError,
        >(empty_slot_error()),
        with_action_input(content) matches Some(t) ==> res.0 is Some && res.1 is Ok
            && call_ensures(action, (t,), (res.0->Some_0, res.1->Ok_0)),
{
    match content {
        Some(t) => {
            let (replacement, out) = action(t);
            (Some(replacement), Ok(out))
        },
        None => (None, Err(empty_slot_error_value())),
    }
}

/// The empty-slot error as a runtime value.
pub fn empty_slot_error_value() -> (r: ThreadSafeStructError)
    ensures
        r == empty_slot_error(),
{
    ThreadSafeStructError { kind: ThreadSafeStructErrorKind::ValueNotSet }
}

/// A single mutable value shared across threads: a mutex around an optional
/// slot. All reads and writes of the slot happen while the lock is held, so
/// no partial state is ever observable.
#[verifier::reject_recursive_types(T)]
pub struct ThreadSafeStruct<T> {
    pub value: Mutex<Option<T>>,
}

impl<T> ThreadSafeStruct<T> {
    /// Runs `action` against the value the slot holds at the moment the lock
    /// is acquired, entirely inside the critical section.
    ///
    /// The action receives the held value and returns its replacement plus
    /// an output, which comes back as the `Ok` case. Which state this call
    /// observes depends on every other thread using the cell, so the
    /// contract promises only what holds of every outcome; the exact
    /// relation between the observed slot and the result is the contract of
    /// [`with_step`], which this method runs between acquiring and releasing
    /// the lock.
    ///
    /// An empty slot leaves the action uninvoked and yields the
    /// value-not-set error; a poisoned lock yields the lock error. The lock
    /// is held while the action runs, so the action must not call back into
    /// the same cell.
    pub fn with<R, F: FnOnce(T) -> (T, R)>(&self, action: F) -> (r: Result<
        R,
        ThreadSafeStructError,
    >)
        requires
            forall|t: T| call_requires(action, (t,)),
        ensures
            r matches Ok(out) ==> exists|t: T, replacement: T|
                call_ensures(action, (t,), (replacement, out)),
            r matches Err(e) ==> e == poisoned_lock_error() || e == empty_slot_error(),
    {
        match lock_slot(&self.value) {
            None => Err(
                ThreadSafeStructError {
                    kind: ThreadSafeStructErrorKind::OtherThreadPanickedWithLock,
                },
            ),
            Some(mut guard) => {
                let content = guard_replace(&mut guard, None);
                let (replacement, out) = with_step(content, action);
                let _ = guard_replace(&mut guard, replacement);
                out
            },
        }
    }

    /// Replaces the slot's whole contents with `value`: `Some` populates the
    /// cell, `None` clears it; the previous contents are dropped.
    ///
    /// At the model level the new slot state is `cell_after_set(_, value)`,
    /// that is, exactly `value`. The call fails only when the lock is
    /// poisoned, which is surfaced as its own error kind rather than by
    /// panicking.
    pub fn set(&self, value: Option<T>) -> (r: Result<(), ThreadSafeStructError>)
        ensures
            r matches Err(e) ==> e == poisoned_lock_error(),
    {
        match lock_slot(&self.value) {
            None => Err(
                ThreadSafeStructError {
                    kind: ThreadSafeStructErrorKind::OtherThreadPanickedWithLock,
                },
            ),
            Some(mut guard) => {
                let _ = guard_replace(&mut guard, value);
                Ok(())
            },
        }
    }
}

/// Law: `set(Some(v))` populates the cell with exactly `v`, whatever it held
/// before, so the action of a following `with` receives `v`.
pub proof fn lemma_set_then_with_observes<T>(state: Option<T>, v: T)
    ensures
        with_action_input(cell_after_set(state, Some(v))) == Some(v),
{
}

/// Law: `set(None)` empties the cell, whatever it held before; a following
/// `with` invokes no action and reports the value-not-set error.
pub proof fn lemma_clear_then_with_fails<T>(state: Option<T>)
    ensures
        with_action_input(cell_after_set(state, None::<T>)) is None,
        empty_slot_error().kind == ThreadSafeStructErrorKind::ValueNotSet,
{
}

/// Law: `set(Some(v))` is idempotent: repeating it leaves the cell exactly
/// as the first call did, populated with `v`.
pub proof fn lemma_set_idempotent<T>(state: Option<T>, v: T)
    ensures
        cell_after_set(cell_after_set(state, Some(v)), Some(v)) == cell_after_set(
            state,
            Some(v),
        ),
        cell_after_set(state, Some(v)) == Some(v),
{
}

} // verus!
