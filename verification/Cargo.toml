[package]
name = "bubbletea-rs"
version = "0.1.0"
edition = "2021"
publish = false

[dependencies]
tokio = { version = "1", features = ["full"] }
tokio-util = "0.7"
crossterm = { version = "0.29", features = ["event-stream"] }
futures = "0.3"
async-trait = "0.1"
thiserror = "2"
log = "0.4"
