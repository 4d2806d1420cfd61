[package]
name = "herdr_plugin"
version = "0.1.7"
edition = "2021"
publish = false

[dependencies]
serde = { version = "1", features = ["derive"] }
serde_json = "1"
thiserror = "1"
toml = "0.8"
tokio = { version = "1", features = ["macros", "rt-multi-thread", "process", "sync", "io-util", "net"] }
interprocess = "2"
