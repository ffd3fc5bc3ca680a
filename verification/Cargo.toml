[package]
name = "srt_transport"
version = "0.1.0"
edition = "2021"
publish = false

[dependencies]
bytes = "1"
libc = "0.2"
tokio = { version = "1", default-features = false, features = ["sync", "time", "rt", "rt-multi-thread"] }
tracing = { version = "0.1", default-features = false, features = ["std"] }
