[package]
name = "confidential-economic-engine"
version = "0.1.0"
edition = "2021"

[dependencies]
anchor-lang = "=0.31.2"
inco-lightning = "=0.1.4"
