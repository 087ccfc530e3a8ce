use wasi_sandbox::driver::{checked_result_capacity, path_in, result_capacity};

#[test]
fn capacity_for_zero_is_the_spare_hundred() {
    assert_eq!(result_capacity(0), 100);
    assert_eq!(checked_result_capacity(0), Some(100));
}

#[test]
fn capacity_is_a_bit_per_cell_and_a_hundred_bytes() {
    assert_eq!(result_capacity(1), 100);
    assert_eq!(result_capacity(2), 100);
    assert_eq!(result_capacity(3), 101);
    assert_eq!(result_capacity(5), 103);
    assert_eq!(result_capacity(16), 132);
    assert_eq!(result_capacity(1000), 125100);
    assert_eq!(checked_result_capacity(1000), Some(125100));
}

#[test]
fn capacity_of_a_square_that_does_not_fit_is_none() {
    assert_eq!(checked_result_capacity(usize::MAX), None);
    let root = 1usize << (usize::BITS / 2);
    assert_eq!(checked_result_capacity(root), None);
    assert_eq!(
        checked_result_capacity(root - 1),
        Some((root - 1) * (root - 1) / 8 + 100)
    );
}

#[test]
fn path_is_joined_with_a_slash() {
    assert_eq!(path_in("/work", "fib.wasm"), "/work/fib.wasm");
    assert_eq!(path_in("/work", "out/fib"), "/work/out/fib");
    assert_eq!(path_in("", "x"), "/x");
    assert_eq!(path_in("/work", ""), "/work/");
}
