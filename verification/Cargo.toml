[package]
name = "apt_cache"
version = "0.1.0"
edition = "2021"
publish = false

[dependencies]
sha1 = "0.10"
async-stream = "0.3"
axum = "0.6"
bytes = "1"
futures-core = "0.3"
futures-util = "0.3"
reqwest = { version = "0.11", default-features = false, features = ["stream"] }
serde = { version = "1", features = ["derive"] }
tokio = { version = "1", features = ["full"] }
tokio-util = { version = "0.7", features = ["io"] }
toml = "0.8"
