[package]
name = "rload"
version = "0.1.0"
edition = "2021"
publish = false

[dependencies]
rand = "*"
serde = { version = "1", features = ["derive"] }
serde_yaml = "*"
hyper = "0.12"
futures = "0.1"
hyper-reverse-proxy = "0.4"
