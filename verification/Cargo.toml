[package]
name = "akagi"
version = "0.1.0"
edition = "2021"
publish = false

[dependencies]
rand = "0.9"
riichienv-core = "*"
serde_json = "1"
tokio = { version = "1", features = ["sync", "time", "macros", "rt"] }
tracing = "0.1"
