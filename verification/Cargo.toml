[package]
name = "git_automate"
version = "0.1.0"
edition = "2021"
publish = false

[dependencies]
anyhow = "1"
clap = { version = "4", features = ["derive"] }
env_logger = "0.11"
log = "0.4"
names = { version = "0.14", default-features = false }
serde = { version = "1", features = ["derive"] }
toml = "0.8"
