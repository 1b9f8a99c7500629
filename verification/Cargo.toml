[package]
name = "tmuxy_core"
version = "0.1.0"
edition = "2021"
publish = false

[dependencies]
vt100 = "0.15"
serde = { version = "1", features = ["derive"] }
serde_json = "1"
tokio = { version = "1", features = ["full"] }
axum = "0.7"
async-stream = "0.3"
futures-util = "0.3"
rand = "0.8"
hex = "0.4"
dirs = "5"
clap = { version = "4", features = ["derive"] }
