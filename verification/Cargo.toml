[package]
name = "perfbot"
version = "0.1.0"
edition = "2021"
publish = false

[dependencies]
itertools = "=0.15.0"
chrono = "=0.4.45"
serde = { version = "=1.0.229", features = ["derive"] }
serde_json = "=1.0.154"
anyhow = "=1.0.104"
url = "=2.5.8"
figment = { version = "=0.10.19", features = ["toml"] }
tokio = { version = "=1.54.1", features = ["rt-multi-thread", "macros", "net"] }
axum = "=0.7.9"
octocrab = "=0.42.1"
jsonwebtoken = "=9.3.1"
dotenvy = "=0.15.7"
axum-github-hooks = "=0.1.0"
ctrlc = "3"
