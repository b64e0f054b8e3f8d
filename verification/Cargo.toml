[package]
name = "hdk"
version = "0.1.0"
edition = "2021"
publish = false

[dependencies]
crc16 = "*"
rand = "*"
uuid = { version = "*", features = ["v4"] }
serde = { version = "*", features = ["derive"] }
