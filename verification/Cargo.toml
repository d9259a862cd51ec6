[package]
name = "loggen"
version = "0.1.0"
edition = "2021"
publish = false

[dependencies]
anyhow = "*"
async-stream = "*"
futures = "*"
tempfile = "*"
tokio = { version = "*", features = ["rt-multi-thread", "macros", "fs"] }
