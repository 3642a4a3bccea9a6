[package]
name = "async_bacnet"
version = "0.1.0"
edition = "2021"
publish = false

[dependencies]
embedded-bacnet = "*"
tokio = { version = "*", features = ["net", "time", "sync", "rt-multi-thread", "macros"] }
socket2 = "*"
clap = { version = "*", features = ["derive"] }
eyre = "*"
serde_json = "*"
log = "*"
tracing-subscriber = { version = "*", features = ["env-filter"] }
