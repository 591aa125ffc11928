[package]
name = "gas_fee_estimator"
version = "0.1.0"
edition = "2021"
publish = false

[dependencies]
rand = "0.8"
reqwest = { version = "0.11", features = ["json"] }
serde = "1"
serde_derive = "1"
tokio = { version = "1", features = ["full"] }
