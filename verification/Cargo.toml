[package]
name = "httpie"
version = "0.1.0"
edition = "2021"
publish = false

[dependencies]
reqwest = { version = "*", default-features = false }
clap = { version = "*", features = ["derive"] }
anyhow = "*"
