[package]
name = "oagw"
version = "0.1.0"
edition = "2021"
publish = false

[dependencies]
async-trait = "0.1"
cf-modkit-security = { version = "*", default-features = false }
serde = { version = "1", features = ["derive"] }
serde_json = "1"
thiserror = "*"
uuid = { version = "1", features = ["v4"] }
