[package]
name = "ledger-cli"
version = "0.1.0"
edition = "2021"
publish = false

[dependencies]
anyhow = "1"
clap = { version = "3", features = ["derive"] }
ledger-transport = "0.10"
ledger-zondax-generic = "0.10"
log = "0.4"
simplelog = "0.12"
strum = { version = "0.24", features = ["derive"] }
tokio = { version = "1", features = ["full"] }
