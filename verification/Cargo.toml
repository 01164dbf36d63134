[package]
name = "rust_play"
version = "0.1.0"
edition = "2021"
publish = false

[dependencies]
rand = "0.8"
futures = "0.3"
async-std = "1"
tokio = { version = "1", features = ["rt-multi-thread", "macros"] }
