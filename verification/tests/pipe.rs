use std::io::Write;

use wasi_sandbox::sandbox::drain;
use wasmer_wasi::Pipe;

#[test]
fn drain_reads_what_was_written() {
    let mut pipe = Pipe::new();
    let mut writer = pipe.clone();
    writer.write_all(b"hello").unwrap();
    let mut buf = Vec::new();
    assert!(drain(&mut pipe, &mut buf));
    assert_eq!(buf, b"hello");
}

#[test]
fn drain_appends_behind_what_is_there() {
    let mut pipe = Pipe::new();
    let mut writer = pipe.clone();
    writer.write_all(b"hel").unwrap();
    writer.write_all(b"lo").unwrap();
    let mut buf = b"seen: ".to_vec();
    assert!(drain(&mut pipe, &mut buf));
    assert_eq!(buf, b"seen: hello");
}

#[test]
fn drain_empties_the_pipe() {
    let mut pipe = Pipe::new();
    let mut writer = pipe.clone();
    writer.write_all(b"once").unwrap();
    let mut first = Vec::new();
    let mut second = b"kept".to_vec();
    assert!(drain(&mut pipe, &mut first));
    assert!(drain(&mut pipe, &mut second));
    assert_eq!(first, b"once");
    assert_eq!(second, b"kept");
}

#[test]
fn drain_of_an_empty_pipe_adds_nothing() {
    let mut pipe = Pipe::new();
    let mut buf = b"kept".to_vec();
    assert!(drain(&mut pipe, &mut buf));
    assert_eq!(buf, b"kept");
}
