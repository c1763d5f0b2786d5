[package]
name = "trayd"
version = "0.1.0"
edition = "2021"
publish = false

[dependencies]
base64-ng = "*"
clap = { version = "4", features = ["derive"] }
serde = { version = "1", features = ["derive"] }
serde_json = "1"
thiserror = "2"
tokio = { version = "1", features = ["rt-multi-thread", "macros", "net", "io-util", "sync", "time", "signal"] }
tracing = "0.1"
zbus = { version = "5", default-features = false, features = ["tokio"] }
