[package]
name = "parish"
version = "0.1.0"
edition = "2021"
publish = false

[dependencies]
rand = "=0.8.8"
chrono = "=0.4.45"
serde = { version = "=1.0.229", features = ["derive"] }
serde_json = "=1.0.154"
toml = "=0.8.23"
thiserror = "=1.0.69"
anyhow = "=1.0.104"
clap = { version = "4", features = ["derive", "env"] }
dotenvy = "0.15"
