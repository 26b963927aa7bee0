[package]
name = "metrique"
version = "0.1.0"
edition = "2021"
publish = false

[dependencies]
arbitrary = "=1.5.0"
proc-macro2 = "=1.0.107"
quote = "=1.0.47"
serde_json = "=1.0.154"
syn = { version = "=2.0.119", features = ["full", "extra-traits"] }
tokio = { version = "=1.54.1", features = ["rt", "rt-multi-thread", "time"] }
tokio-metrics = { version = "=0.5.2", features = ["rt"] }
tracing = "=0.1.44"
