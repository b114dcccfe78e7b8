[package]
name = "namada_faucet"
version = "0.1.0"
edition = "2021"
publish = false

[dependencies]
orion = "0.17"
rand = "0.8"
rand_chacha = "0.3"
data-encoding = "2"
serde = { version = "1", features = ["derive"] }
serde_json = "1"
axum = "0.6"
tokio = { version = "1", features = ["full"] }
thiserror = "1"
anyhow = "1"
clap = { version = "4", features = ["derive", "env"] }
dotenvy = "0.15"
lazy_static = "1"
tracing = "0.1"
tracing-subscriber = "0.3"
tower = { version = "0.4", features = ["buffer", "limit", "timeout"] }
tower-http = { version = "0.4", features = ["cors", "trace"] }
validator = { version = "0.16", features = ["derive"] }
async-trait = "0.1"
reqwest = { version = "0.11", default-features = false, features = ["json"] }
