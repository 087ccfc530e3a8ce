[package]
name = "wasi_sandbox"
version = "0.1.0"
edition = "2021"
publish = false

[dependencies]
tempfile = "3"
wasmer = "=3.1.1"
wasmer-wasi = "=3.1.1"
