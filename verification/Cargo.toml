[package]
name = "rtcore"
version = "0.1.0"
edition = "2021"
publish = false

[dependencies]
bytes = "1"
futures-core = "0.3"
futures-util = "0.3"
pin-project-lite = "0.2"
tokio = { version = "1", features = ["time", "io-util", "rt"] }
tracing = "0.1"
