[package]
name = "magit"
version = "0.1.0"
edition = "2021"
publish = false

[dependencies]
hmac = "0.11"
sha2 = "0.9"
indexmap = "1"
rocket = "0.5"
chrono = "0.4"
serde = { version = "1", features = ["derive"] }
serde_json = "1"
serde_path_to_error = "0.1"
tokio = { version = "1", features = ["full"] }
url = "2"
reqwest = { version = "0.11", features = ["json"] }
tracing = "0.1"
tracing-subscriber = "0.3"
dirs = "3"
thiserror = "1"
matrix-sdk = "0.3"
