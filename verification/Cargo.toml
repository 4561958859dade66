[package]
name = "btcdb"
version = "0.1.0"
edition = "2021"
publish = false

[dependencies]
bitcoincore-rpc = "0.19"
clap = { version = "4", features = ["derive"] }
dirs = "5"
figment = { version = "0.10", features = ["toml"] }
serde = { version = "1", features = ["derive"] }
tokio = { version = "1", features = ["macros", "rt-multi-thread"] }
tokio-postgres = "0.7"
