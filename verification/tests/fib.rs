use wasi_sandbox::fib::{fib, FIB_MAX_INDEX};

#[test]
fn fib_starts_with_zero_and_one() {
    assert_eq!(fib(0), 0);
    assert_eq!(fib(1), 1);
    assert_eq!(fib(2), 1);
}

#[test]
fn fib_small_values() {
    let expected = [0, 1, 1, 2, 3, 5, 8, 13, 21, 34, 55, 89, 144];
    for (n, value) in expected.iter().enumerate() {
        assert_eq!(fib(n as i32), *value);
    }
    assert_eq!(fib(20), 6765);
    assert_eq!(fib(30), 832040);
}

#[test]
fn fib_follows_the_recurrence() {
    for n in 2..25 {
        assert_eq!(fib(n), fib(n - 1) + fib(n - 2));
    }
}

#[test]
fn fib_max_index_is_the_last_that_fits() {
    assert_eq!(FIB_MAX_INDEX, 46);
    let mut previous: i64 = 0;
    let mut current: i64 = 1;
    for _ in 1..FIB_MAX_INDEX {
        let next = previous + current;
        previous = current;
        current = next;
    }
    assert_eq!(current, 1836311903);
    assert!(current <= i32::MAX as i64);
    assert!(previous + current > i32::MAX as i64);
}
