use wasi_sandbox::bridge::{deliver, hand_over, write_result};
use wasi_sandbox::stage::{Failure, Stage};

#[test]
fn hello_is_copied_and_counted() {
    let mut result = vec![0xAAu8; 16];
    assert_eq!(write_result(b"hello", &mut result), 5);
    assert_eq!(&result[..5], b"hello");
    assert_eq!(&result[5..], &[0xAAu8; 11]);
}

#[test]
fn output_fills_a_buffer_of_its_own_size() {
    let mut result = vec![0u8; 5];
    assert_eq!(write_result(b"hello", &mut result), 5);
    assert_eq!(result, b"hello");
}

#[test]
fn empty_output_touches_nothing() {
    let mut result = vec![3u8; 4];
    assert_eq!(write_result(&[], &mut result), 0);
    assert_eq!(result, vec![3u8; 4]);
    let mut none: Vec<u8> = Vec::new();
    assert_eq!(write_result(&[], &mut none), 0);
    assert_eq!(deliver(&[], &mut none), 0);
    assert_eq!(deliver(&[], &mut result), 0);
    assert_eq!(result, vec![3u8; 4]);
}

#[test]
fn deliver_copies_what_fits() {
    let mut result = vec![b'.'; 6];
    assert_eq!(deliver(b"1234", &mut result), 4);
    assert_eq!(result, b"1234..");
    assert_eq!(deliver(b"abcdef", &mut result), 6);
    assert_eq!(result, b"abcdef");
}

#[test]
fn deliver_leaves_alone_what_has_no_room() {
    let mut result = vec![7u8; 4];
    assert_eq!(deliver(b"hello", &mut result), 0);
    assert_eq!(result, vec![7u8; 4]);
    let mut none: Vec<u8> = Vec::new();
    assert_eq!(deliver(b"x", &mut none), 0);
}

#[test]
fn captured_hello_reaches_the_caller() {
    let mut result = vec![0u8; 5 * 5 / 8 + 100];
    let written = hand_over(Stage::OutputCaptured, b"hello", &mut result);
    assert_eq!(written, 5);
    result.truncate(written as usize);
    assert_eq!(result, b"hello");
}

#[test]
fn failed_session_hands_over_nothing() {
    let failures = [
        Failure::Deserialize,
        Failure::Instantiation,
        Failure::MemoryExport,
        Failure::Trap,
    ];
    for failure in failures {
        let mut result = vec![9u8; 8];
        assert_eq!(hand_over(Stage::Failed(failure), b"hello", &mut result), 0);
        assert_eq!(result, vec![9u8; 8]);
    }
}

#[test]
fn unfinished_session_hands_over_nothing() {
    for stage in [
        Stage::Created,
        Stage::MemoryLoaded,
        Stage::Instantiated,
        Stage::MemorySet,
        Stage::Started,
    ] {
        let mut result = vec![9u8; 8];
        assert_eq!(hand_over(stage, b"hello", &mut result), 0);
        assert_eq!(result, vec![9u8; 8]);
    }
}

#[test]
fn same_session_end_gives_the_same_result() {
    let mut first = vec![1u8; 32];
    let mut second = vec![1u8; 32];
    let one = hand_over(Stage::OutputCaptured, b"0101 1100", &mut first);
    let two = hand_over(Stage::OutputCaptured, b"0101 1100", &mut second);
    assert_eq!(one, 9);
    assert_eq!(one, two);
    assert_eq!(first, second);
}
