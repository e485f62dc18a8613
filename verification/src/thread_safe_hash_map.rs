//! Key-value convenience on a cell whose payload is a hash map.
//!
//! `insert` and `remove` delegate to the cell's `with`, so the whole map
//! operation runs inside one critical section and the map itself never
//! escapes the lock. Each critical section is a verified function on a
//! plain `HashMap` value (`map_insert_step`, `map_remove_step`), specified
//! against the mathematical `Map` it views to, and the step from a
//! section's outcome to the adapter's reported result is a verified
//! function too (`remove_outcome`, `insert_outcome`), with a contract that
//! pins every case.

use crate::thread_safe_static::empty_slot_error;
use crate::thread_safe_static::poisoned_lock_error;
use crate::thread_safe_static::ThreadSafeStruct;
use crate::thread_safe_static::ThreadSafeStructError;
use std::collections::HashMap;
use std::hash::Hash;
use vstd::prelude::*;
use vstd::std_specs::hash::obeys_key_model;

verus! {

/// What an overwrite-on-existing-key insert does to a mathematical map:
/// the new map binds `key` to `value`, and the previous binding of `key`,
/// if any, is surfaced.
pub open spec fn spec_map_insert<T, U>(m: Map<T, U>, key: T, value: U) -> (Map<T, U>, Option<
    U,
>) {
    (
        m.insert(key, value),
        if m.contains_key(key) {
            Some(m[key])
        } else {
            None
        },
    )
}

/// What a remove does to a mathematical map: the new map no longer binds
/// `key`, and the removed value, if `key` was bound, is surfaced.
pub open spec fn spec_map_remove<T, U>(m: Map<T, U>, key: T) -> (Map<T, U>, Option<U>) {
    (
        m.remove(key),
        if m.contains_key(key) {
            Some(m[key])
        } else {
            None
        },
    )
}

/// The error text `remove` returns when the key has no entry.
pub open spec fn key_missing_message() -> Seq<char> {
    "Error, key did not exist in hashmap"@
}

/// One `insert` critical section, as a function on the observed map: a
/// standard overwrite-on-existing-key insert, surfacing the previous value.
pub fn map_insert_step<T: Eq + Hash, U>(m: HashMap<T, U>, key: T, value: U) -> (res: (
    HashMap<T, U>,
    Option<U>,
))
    ensures
        obeys_key_model::<T>() ==> {
            &&& res.0@ == spec_map_insert(m@, key, value).0
            &&& res.1 == spec_map_insert(m@, key, value).1
        },
{
    let mut updated = m;
    let previous = updated.insert(key, value);
    (updated, previous)
}

/// One `remove` critical section, as a function on the observed map: the
/// entry for `key` is taken out, and its value, if any, surfaced.
pub fn map_remove_step<T: Eq + Hash, U>(m: HashMap<T, U>, key: &T) -> (res: (
    HashMap<T, U>,
    Option<U>,
))
    ensures
        obeys_key_model::<T>() ==> {
            &&& res.0@ == spec_map_remove(m@, *key).0
            &&& res.1 == spec_map_remove(m@, *key).1
        },
{
    let mut updated = m;
    let removed = updated.remove(key);
    (updated, removed)
}

/// The adapter's verdict on one `remove` critical section: the removed
/// value on success, the missing-key text when the key had no entry, and
/// the cell's own message when the section never ran (empty slot or
/// poisoned lock).
pub open spec fn spec_remove_outcome<U>(r: Result<Option<U>, ThreadSafeStructError>) -> Result<
    U,
    Seq<char>,
> {
    match r {
        Ok(Some(v)) => Ok(v),
        Ok(None) => Err(key_missing_message()),
        Err(e) => Err(e.spec_message()),
    }
}

/// The adapter's verdict on one `insert` critical section: the previous
/// binding on success, the cell's own message when the section never ran.
pub open spec fn spec_insert_outcome<U>(r: Result<Option<U>, ThreadSafeStructError>) -> Result<
    Option<U>,
    Seq<char>,
> {
    match r {
        Ok(previous) => Ok(previous),
        Err(e) => Err(e.spec_message()),
    }
}

/// Turns one `remove` critical section's outcome into the adapter's
/// result, exactly as [`spec_remove_outcome`] says: `Ok(Some(v))` becomes
/// `Ok(v)`, `Ok(None)` the missing-key error, and a cell error its own
/// message.
pub fn remove_outcome<U>(r: Result<Option<U>, ThreadSafeStructError>) -> (out: Result<U, String>)
    ensures
        spec_remove_outcome(r) matches Ok(v) ==> out matches Ok(w) && w == v,
        spec_remove_outcome(r) matches Err(t) ==> out matches Err(s) && s@ == t,
{
    match r {
        Ok(Some(v)) => Ok(v),
        Ok(None) => Err("Error, key did not exist in hashmap".to_string()),
        Err(e) => Err(e.message()),
    }
}

/// Turns one `insert` critical section's outcome into the adapter's
/// result, exactly as [`spec_insert_outcome`] says: a success is handed
/// through unchanged, a cell error becomes its own message.
pub fn insert_outcome<U>(r: Result<Option<U>, ThreadSafeStructError>) -> (out: Result<
    Option<U>,
    String,
>)
    ensures
        spec_insert_outcome(r) matches Ok(p) ==> out matches Ok(q) && q == p,
        spec_insert_outcome(r) matches Err(t) ==> out matches Err(s) && s@ == t,
{
    match r {
        Ok(previous) => Ok(previous),
        Err(e) => Err(e.message()),
    }
}

/// Map-shaped access to a synchronized cell: insert and remove entries of
/// the wrapped mapping without ever taking a reference to it out of the
/// lock. Errors are surfaced as text; every message is one of the cell's
/// own error messages or the missing-key message.
pub trait TsHashMap<T, U> {
    /// Removes `key`'s entry from the wrapped map and returns its value;
    /// the missing-key text when `key` has no entry, the cell's error text
    /// when the slot holds no map at all or the lock is poisoned.
    fn remove(&self, key: &T) -> (r: Result<U, String>)
        ensures
            r matches Err(s) ==> s@ == key_missing_message() || s@
                == empty_slot_error().spec_message() || s@ == poisoned_lock_error().spec_message(),
    ;

    /// Binds `key` to `value` in the wrapped map, surfacing the previous
    /// value bound to `key`, if any; the cell's error text when the slot
    /// holds no map at all or the lock is poisoned.
    fn insert(&self, key: T, value: U) -> (r: Result<Option<U>, String>)
        ensures
            r matches Err(s) ==> s@ == empty_slot_error().spec_message() || s@
                == poisoned_lock_error().spec_message(),
    ;
}

impl<T: Eq + Hash, U: Eq + Hash> TsHashMap<T, U> for ThreadSafeStruct<HashMap<T, U>> {
    fn remove(&self, key: &T) -> (r: Result<U, String>) {
        remove_outcome(self.with(|m: HashMap<T, U>| map_remove_step(m, key)))
    }

    fn insert(&self, key: T, value: U) -> (r: Result<Option<U>, String>) {
        insert_outcome(self.with(|m: HashMap<T, U>| map_insert_step(m, key, value)))
    }
}

/// Law: inserting `v` at `k` and then removing `k` hands back exactly `v`,
/// and a second remove of `k` finds nothing; through the adapter's verdict,
/// the first remove answers `Ok(v)` and the second the missing-key error.
pub proof fn lemma_insert_remove_round_trip<T, U>(m: Map<T, U>, k: T, v: U)
    ensures
        spec_map_remove(spec_map_insert(m, k, v).0, k).1 == Some(v),
        spec_map_remove(spec_map_remove(spec_map_insert(m, k, v).0, k).0, k).1 is None,
        spec_remove_outcome(
            Ok::<Option<U>, ThreadSafeStructError>(spec_map_remove(spec_map_insert(m, k, v).0, k).1),
        ) == Ok::<U, Seq<char>>(v),
        spec_remove_outcome(
            Ok::<Option<U>, ThreadSafeStructError>(
                spec_map_remove(spec_map_remove(spec_map_insert(m, k, v).0, k).0, k).1,
            ),
        ) == Err::<U, Seq<char>>(key_missing_message()),
{
}

/// Law: a second insert at the same key surfaces the first inserted value
/// as the previous one, and a remove afterwards hands back the second;
/// through the adapter's verdict, the second insert answers `Ok(Some(v1))`
/// and the remove `Ok(v2)`.
pub proof fn lemma_insert_overwrites<T, U>(m: Map<T, U>, k: T, v1: U, v2: U)
    ensures
        spec_map_insert(spec_map_insert(m, k, v1).0, k, v2).1 == Some(v1),
        spec_map_remove(spec_map_insert(spec_map_insert(m, k, v1).0, k, v2).0, k).1 == Some(v2),
        spec_insert_outcome(
            Ok::<Option<U>, ThreadSafeStructError>(
                spec_map_insert(spec_map_insert(m, k, v1).0, k, v2).1,
            ),
        ) == Ok::<Option<U>, Seq<char>>(Some(v1)),
        spec_remove_outcome(
            Ok::<Option<U>, ThreadSafeStructError>(
                spec_map_remove(spec_map_insert(spec_map_insert(m, k, v1).0, k, v2).0, k).1,
            ),
        ) == Ok::<U, Seq<char>>(v2),
{
}

/// Law: an error of the cell itself (empty slot or poisoned lock) passes
/// through `remove`'s verdict as the cell's own message, and that message
/// is never the missing-key text: the two failure causes cannot be
/// confused in the reported text.
pub proof fn lemma_cell_error_is_not_key_missing<U>(e: ThreadSafeStructError)
    ensures
        spec_remove_outcome(Err::<Option<U>, ThreadSafeStructError>(e)) == Err::<U, Seq<char>>(
            e.spec_message(),
        ),
        e.spec_message() != key_missing_message(),
{
    reveal_strlit("Value was not set");
    reveal_strlit("Error getting lock, thread with lock panicked");
    reveal_strlit("Error, key did not exist in hashmap");
    assert("Value was not set"@.len() == 17);
    assert("Error getting lock, thread with lock panicked"@.len() == 45);
    assert("Error, key did not exist in hashmap"@.len() == 35);
}

} // verus!
