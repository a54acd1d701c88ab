[package]
name = "toio"
version = "0.1.0"
edition = "2021"
publish = false

[dependencies]
anyhow = "*"
async-trait = "*"
futures = "*"
tokio = { version = "*", features = ["sync", "rt", "rt-multi-thread", "time", "macros"] }
