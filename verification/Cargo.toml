[package]
name = "dragon_node"
version = "0.1.0"
edition = "2021"
publish = false

[dependencies]
uuid = "1"
tonic = { version = "*", default-features = false }
parking_lot = "0.12"
prost-types = "*"
serde_json = "1"
