[package]
name = "kalamarnica"
version = "0.1.0"
edition = "2021"
publish = false

[dependencies]
anyhow = "=1.0.104"
clap = { version = "=4.6.7", features = ["derive"] }
dirs = "=6.0.0"
env_logger = "=0.11.11"
git2 = "=0.20.4"
gitlab = "=0.1905.0"
log = "=0.4.35"
octocrab = "=0.40.0"
rustls = { version = "=0.23.46", features = ["ring"] }
serde = { version = "=1.0.229", features = ["derive"] }
serde_yaml = "=0.9.34"
tokio = { version = "=1.54.1", features = ["rt", "rt-multi-thread"] }
toml = "=1.1.8"
