[package]
name = "rhyperliquid"
version = "0.2.0"
edition = "2021"
publish = false

[dependencies]
alloy = { version = "1", default-features = false, features = ["std", "signer-local", "sol-types"] }
serde = { version = "1", features = ["derive"] }
serde_json = "1"
rmp-serde = "1"
rust_decimal = "1"
serde_with = "3"
thiserror = "2"
tokio = { version = "1", features = ["rt-multi-thread", "macros", "sync", "time", "net"] }
tokio-tungstenite = "0.24"
futures = { version = "0.3", default-features = false, features = ["std", "async-await"] }
futures-util = "0.3"
once_cell = "1"
reqwest = { version = "0.12", default-features = false, features = ["json"] }
tracing = "0.1"
clap = { version = "4", default-features = false, features = ["std", "derive", "help", "usage", "error-context"] }
