[package]
name = "usage_core"
version = "0.1.0"
edition = "2021"
publish = false

[dependencies]
dirs = "6"
reqwest = { version = "0.12", default-features = false, features = ["json", "rustls-tls"] }
serde = { version = "1", features = ["derive"] }
serde_json = "1"
thiserror = "2"
tokio = { version = "1", features = ["process", "time", "rt", "macros"] }
