[package]
name = "dev-pets"
version = "0.1.0"
edition = "2021"
publish = false

[dependencies]
axum = "0.8"
open = "5"
tokio = { version = "1", features = ["rt-multi-thread", "net"] }
