[package]
name = "synchrony_vc"
version = "0.1.0"
edition = "2021"
publish = false

[dependencies]
solana-program = "1.18"
spl-token = { version = "4", default-features = false, features = ["no-entrypoint"] }
chrono = "0.4"
clap = "2"
serde = { version = "1", features = ["derive"] }
serde_yaml = "0.9"
dirs-next = "2"
