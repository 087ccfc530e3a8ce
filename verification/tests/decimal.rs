use wasi_sandbox::decimal::{decimal_string, push_decimal};

#[test]
fn zero_is_written_as_one_digit() {
    assert_eq!(decimal_string(0), "0");
}

#[test]
fn numbers_in_decimal() {
    assert_eq!(decimal_string(5), "5");
    assert_eq!(decimal_string(9), "9");
    assert_eq!(decimal_string(10), "10");
    assert_eq!(decimal_string(42), "42");
    assert_eq!(decimal_string(100), "100");
    assert_eq!(decimal_string(1234567890), "1234567890");
    assert_eq!(decimal_string(u32::MAX), "4294967295");
}

#[test]
fn decimal_agrees_with_std() {
    let mut n: u32 = 1;
    for _ in 0..64 {
        assert_eq!(decimal_string(n), n.to_string());
        assert_eq!(decimal_string(n).parse::<u32>(), Ok(n));
        n = n.wrapping_mul(2654435761).wrapping_add(12345);
    }
    for n in 0..1200u32 {
        assert_eq!(decimal_string(n), n.to_string());
    }
}

#[test]
fn decimal_is_appended() {
    let mut text = String::from("n=");
    push_decimal(&mut text, 307);
    assert_eq!(text, "n=307");
    push_decimal(&mut text, 0);
    assert_eq!(text, "n=3070");
}

#[test]
fn same_number_is_written_the_same_way_twice() {
    assert_eq!(decimal_string(77), decimal_string(77));
    assert_ne!(decimal_string(77), decimal_string(78));
}
