[package]
name = "emulator"
version = "0.1.0"
edition = "2021"
publish = false

[dependencies]
anyhow = "1"
clap = { version = "4", features = ["derive"] }
either = "1"
flume = "0.11"
