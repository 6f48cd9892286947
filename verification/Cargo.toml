[package]
name = "actrice"
version = "0.1.0"
edition = "2021"
publish = false

[dependencies]
flume = "0.11"
tokio = { version = "1", features = ["sync", "rt", "rt-multi-thread", "time"] }
async-trait = "0.1"
