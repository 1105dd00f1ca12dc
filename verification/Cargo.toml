[package]
name = "raijin"
version = "0.1.0"
edition = "2021"
publish = false

[dependencies]
reqwest = { version = "*", default-features = false }
serde = { version = "1", features = ["derive"] }
serde_json = "1"
sqlx = { version = "*", default-features = false, features = ["runtime-tokio", "sqlite"] }
thiserror = "*"
tokio = { version = "1", features = ["rt-multi-thread", "macros", "sync", "fs", "time", "io-util", "net"] }
tokio-util = "*"
tracing = "*"
