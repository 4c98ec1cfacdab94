[package]
name = "raw-ipa"
version = "0.1.0"
edition = "2021"
publish = false

[dependencies]
tokio = { version = "1", features = ["sync", "rt", "macros"] }
tokio-util = "0.7"
tokio-stream = "0.1"
futures = "0.3"
futures-util = "0.3"
pin-project = "1"
async-trait = "0.1"
thiserror = "1"
serde = { version = "1", features = ["derive"] }
axum = "0.5"
hyper = "0.14"
