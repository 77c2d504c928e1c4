[package]
name = "admin_control"
version = "0.1.0"
edition = "2021"
publish = false

[dependencies]
tokio = { version = "1", features = ["sync", "rt-multi-thread", "macros"] }
tonic = "*"
thiserror = "*"
tracing = "*"
