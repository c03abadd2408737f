[package]
name = "voting"
version = "0.1.0"
edition = "2021"
publish = false

[dependencies]
anyhow = "*"
clap = { version = "*", features = ["derive"] }
concordium-rust-sdk = "=9.0.1"
ed25519-dalek = "=2.2.0"
env_logger = "*"
log = "*"
serde = { version = "*", features = ["derive"] }
serde-hex = "=0.1.0"
thiserror = "*"
tokio = { version = "*", features = ["macros", "rt-multi-thread"] }
warp = { version = "=0.4.3", features = ["server"] }
