[package]
name = "xkippo"
version = "0.1.0"
edition = "2021"
publish = false

[dependencies]
uuid = { version = "*", features = ["v4"] }

[dev-dependencies]
serde_json = "*"
chrono = "*"
regex = "*"
