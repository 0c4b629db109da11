[package]
name = "fee_bump"
version = "0.1.0"
edition = "2021"
publish = false

[dependencies]
anyhow = "1"
bitcoin = "0.32"
bitcoincore-rpc = "0.19"
hex = "0.4"
tokio = { version = "1", features = ["macros", "rt-multi-thread"] }
