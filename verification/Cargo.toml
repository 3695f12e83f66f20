[package]
name = "cargo-upload"
version = "0.1.0"
edition = "2021"
publish = false

[dependencies]
anyhow = "=1.0.104"
cargo = "=0.70.1"
cargo-util = "=0.2.3"
clap = { version = "=4.6.7", features = ["derive"] }
crates-io = "=0.36.0"
env_logger = "=0.10.2"
flate2 = "=1.1.10"
futures = "=0.3.34"
indicatif = "=0.17.11"
itertools = "=0.10.5"
log = "=0.4.35"
serde = { version = "=1.0.229", features = ["derive"] }
tar = "=0.4.46"
tempfile = "=3.27.0"
tokio = { version = "=1.54.1", features = ["macros", "rt-multi-thread"] }
toml = "=0.7.8"
