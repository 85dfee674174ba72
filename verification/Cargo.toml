[package]
name = "cartesi_rollups"
version = "0.1.0"
edition = "2021"
publish = false

[dependencies]
serde = { version = "1", features = ["derive"] }
serde_json = "1"
hyper = { version = "0.14", features = ["client", "http1", "tcp"] }
nix = "0.26"
thiserror = "1"
log = "0.4"
env_logger = "0.10"
clap = { version = "4", features = ["derive"] }
sha1 = "0.10"
hex = "0.4"
hex-literal = "0.4"
toml = "0.8"
users = "0.11"
figment = { version = "0.10", features = ["env", "toml"] }
