[package]
name = "repcodec"
version = "0.1.0"
edition = "2021"
publish = false

[dependencies]
anyhow = "*"
bytes = "*"
futures = "*"
tokio = { version = "*", features = ["full"] }
tokio-postgres = "*"
