[package]
name = "panser"
version = "0.1.0"
edition = "2021"
publish = false

[dependencies]
bincode = "1"
rmp-serde = "1"
serde_cbor = "0.11"
serde_json = "1"
serde-pickle = "1"
serde_urlencoded = "0.7"
serde_yaml = "0.8"
toml = "0.5"
