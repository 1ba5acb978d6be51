[package]
name = "swap"
version = "0.1.0"
edition = "2021"
publish = false

[dependencies]
anyhow = "1"
ecdsa_fun = "*"
rand = "0.8"
tokio = { version = "1", default-features = false, features = ["macros"] }
tracing = "0.1"
uuid = "1"
