[package]
name = "lightkeeper"
version = "0.1.0"
edition = "2021"
publish = false

[dependencies]
serde_json = "1"
serde = { version = "1", features = ["derive"] }
serde_yaml = "0.9"
owo-colors = "*"
tabled = "*"
