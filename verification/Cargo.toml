[package]
name = "gnomeqs_core"
version = "0.1.0"
edition = "2021"
publish = false

[dependencies]
mdns-sd = "*"
gethostname = "*"
anyhow = "*"
log = "*"
serde = { version = "*", features = ["derive"] }
tokio = { version = "*", features = ["rt-multi-thread", "macros", "time", "sync", "net", "signal"] }
tokio-util = "*"
