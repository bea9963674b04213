[package]
name = "ofreg"
version = "0.1.0"
edition = "2021"
publish = false

[dependencies]
anyhow = "=1.0.104"
chrono = "=0.4.45"
clap = { version = "=4.6.7", features = ["derive"] }
nix = { version = "=0.31.3", features = ["user", "fs"] }
rusqlite = { version = "=0.41.1", features = ["fallible_uint"] }
serde = { version = "=1.0.229", features = ["derive"] }
serde_json = "=1.0.154"
tabled = "=0.22.0"
tokio = { version = "=1.54.1", features = ["full"] }
tokio-rusqlite-new = "=0.15.0"
toml = "=1.1.8"
tracing = "=0.1.44"
tracing-appender = "=0.2.5"
tracing-subscriber = "=0.3.23"
