[package]
name = "stdio_transport"
version = "0.1.0"
edition = "2021"
publish = false

[dependencies]
async-trait = "=0.1.92"
dashmap = "=6.2.1"
dirs = "=6.0.0"
parking_lot = "=0.12.5"
serde_json = { version = "=1.0.154", features = ["float_roundtrip", "preserve_order"] }
shlex = "=1.3.0"
tokio = { version = "=1.54.1", features = ["io-util", "macros", "process", "rt", "sync", "time"] }
tracing = "=0.1.44"
