[package]
name = "ferium"
version = "0.1.0"
edition = "2021"
publish = false

[dependencies]
async_zip = { version = "*", features = ["deflate", "tokio"] }
clap = { version = "*", features = ["derive"] }
ferinth = "*"
furse = "*"
octocrab = "*"
reqwest = { version = "*", default-features = false, features = ["stream"] }
serde = { version = "*", features = ["derive"] }
serde_json = "*"
thiserror = "*"
tokio = { version = "*", features = ["fs", "io-util", "macros", "rt-multi-thread"] }
tokio-util = { version = "*", features = ["compat"] }
