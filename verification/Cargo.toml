[package]
name = "tonic_buf_build"
version = "0.1.0"
edition = "2021"
publish = false

[dependencies]
serde_yaml_ng = "*"
scopeguard = "*"
tonic-prost-build = "*"
uuid = { version = "*", features = ["v4"] }
