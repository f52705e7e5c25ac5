[package]
name = "sysreport"
version = "0.1.0"
edition = "2021"
publish = false

[dependencies]
erased-serde = "*"
serde = { version = "*", features = ["derive"] }
serde_json = "*"
