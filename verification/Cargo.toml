[package]
name = "screenpipe_engine"
version = "0.1.0"
edition = "2021"
publish = false

[dependencies]
conservation-checker = "=0.2.0"
sysinfo = "=0.30.13"
tokio = { version = "=1.54.1", features = ["rt", "rt-multi-thread", "time"] }
tracing = "=0.1.44"
