//! A synchronized optional value: a mutex-guarded slot holding `Option<T>`,
//! with an access protocol (`with` / `set`) that keeps every read and write
//! of the slot inside the lock's critical section, plus a key-value adapter
//! for cells whose payload is a hash map.

use vstd::prelude::*;

mod locking;
pub mod thread_safe_hash_map;
pub mod thread_safe_static;

pub use thread_safe_hash_map::TsHashMap;
pub use thread_safe_static::ThreadSafeStruct;
pub use thread_safe_static::ThreadSafeStructError;
pub use thread_safe_static::ThreadSafeStructErrorKind;

verus! {

/// Default payload used by the crate's own seeded-cell example: a cell
/// initialized from a zero-argument function starts out populated with
/// that function's result.
pub fn do_something() -> (r: i32)
    ensures
        r == 123,
{
    123
}

} // verus!
