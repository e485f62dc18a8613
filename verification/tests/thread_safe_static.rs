use rayon::iter::IntoParallelRefIterator;
use rayon::iter::ParallelIterator;
use std::sync::Mutex;
use ts_static::do_something;
use ts_static::thread_safe_static::empty_slot_error_value;
use ts_static::thread_safe_static::with_step;
use ts_static::ThreadSafeStruct;
use ts_static::ThreadSafeStructErrorKind;

const TEST_SIZE: u32 = 100000;

#[test]
fn when_value_is_none_should_return_error() {
    let err_test: ThreadSafeStruct<i32> = ThreadSafeStruct { value: Mutex::new(None) };

    let result = err_test.with(|x| (x, ()));

    assert_eq!(result.is_err(), true);
    assert_eq!(result.unwrap_err().kind, ThreadSafeStructErrorKind::ValueNotSet);
}

#[test]
fn when_setting_value_should_set_value() {
    let set_test: ThreadSafeStruct<i32> = ThreadSafeStruct { value: Mutex::new(None) };

    set_test.set(Some(222)).expect("set failed");

    let fetched_value: i32 = set_test.with(|x| (x, x)).expect("With Faulted!");

    assert_eq!(222, fetched_value);
}

#[test]
fn when_performing_with_should_be_able_to_alter_value() {
    let alter_test: ThreadSafeStruct<i32> = ThreadSafeStruct { value: Mutex::new(Some(222)) };

    alter_test.with(|x| (x * 2, ())).expect("With Faulted!");

    let fetched_value: i32 = alter_test.with(|x| (x, x)).expect("With Faulted!");

    assert_eq!(444, fetched_value);
}

#[test]
fn when_threading_should_return_no_errors() {
    let thread_test: ThreadSafeStruct<u32> = ThreadSafeStruct { value: Mutex::new(Some(0)) };
    let vals: Vec<u8> = vec![0; TEST_SIZE as usize];

    vals.par_iter().for_each(|_| {
        thread_test.with(|i| (i + 1, ())).expect("With Faulted!");
    });

    let fetched = thread_test.with(|x| (x, x));
    assert_eq!(fetched.is_err(), false);
    assert_eq!(TEST_SIZE, fetched.unwrap());
}

#[test]
fn test_ts_static_with_default() {
    let my_static: ThreadSafeStruct<i32> =
        ThreadSafeStruct { value: Mutex::new(Some(do_something())) };

    my_static
        .with(|x| {
            assert_eq!(123, x);
            (x, ())
        })
        .expect("Error");
}

#[test]
fn set_value_is_observed_by_with() {
    let cell: ThreadSafeStruct<u64> = ThreadSafeStruct { value: Mutex::new(None) };

    cell.set(Some(1337)).expect("set failed");

    let observed = cell.with(|x| (x, x == 1337)).expect("With Faulted!");
    assert_eq!(true, observed);
}

#[test]
fn clearing_a_populated_cell_makes_with_fail() {
    let cell: ThreadSafeStruct<i32> = ThreadSafeStruct { value: Mutex::new(Some(5)) };

    cell.set(None).expect("set failed");

    let result = cell.with(|x| (x, ()));
    assert_eq!(result.unwrap_err().kind, ThreadSafeStructErrorKind::ValueNotSet);
}

#[test]
fn setting_twice_leaves_the_value_in_place() {
    let cell: ThreadSafeStruct<i32> = ThreadSafeStruct { value: Mutex::new(None) };

    cell.set(Some(9)).expect("set failed");
    cell.set(Some(9)).expect("set failed");

    let fetched: i32 = cell.with(|x| (x, x)).expect("With Faulted!");
    assert_eq!(9, fetched);
}

#[test]
fn with_step_on_empty_slot_reports_value_not_set() {
    let (slot, result) = with_step(None::<i32>, |x| (x, x));

    assert_eq!(None, slot);
    assert_eq!(ThreadSafeStructErrorKind::ValueNotSet, result.unwrap_err().kind);
}

#[test]
fn with_step_on_populated_slot_applies_the_action() {
    let (slot, result) = with_step(Some(5i32), |x| (x + 1, x * 10));

    assert_eq!(Some(6), slot);
    assert_eq!(50, result.expect("With Faulted!"));
}

#[test]
fn error_messages_name_their_cause() {
    let cell: ThreadSafeStruct<i32> = ThreadSafeStruct { value: Mutex::new(None) };

    let err = cell.with(|x| (x, ())).unwrap_err();
    assert_eq!("Value was not set", err.message());
    assert_eq!(err, empty_slot_error_value());
}
