[package]
name = "merchant_connector"
version = "0.1.0"
edition = "2021"
publish = false

[dependencies]
serde = { version = "*", features = ["derive"] }
serde_json = "=1.0.151"
time = "=0.3.55"
