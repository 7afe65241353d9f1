[package]
name = "wasi_process"
version = "0.3.0"
edition = "2021"
publish = false

[dependencies]
bytes = "=1.12.1"
parking_lot = "=0.12.5"
serde = { version = "=1.0.229", features = ["derive"] }
tokio = { version = "=1.54.1", features = ["rt", "rt-multi-thread", "io-util", "macros"] }
wasmer = { version = "=3.1.1", default-features = false, features = ["sys", "compiler"] }
wasmer-wasi = { version = "=3.1.1", default-features = false, features = ["sys", "host-fs", "sys-poll"] }
