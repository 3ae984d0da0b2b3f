[package]
name = "h_bank"
version = "0.1.0"
edition = "2021"
publish = false

[dependencies]
regex = "*"
serde = { version = "*", features = ["derive"] }
serde_json = "*"
time = "*"
uuid = { version = "*", features = ["v4"] }
