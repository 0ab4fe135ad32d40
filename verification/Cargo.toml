[package]
name = "proofsheet"
version = "0.1.0"
edition = "2021"
publish = false

[dependencies]
base64 = "=0.22.1"
getrandom = "=0.2.17"
serde = { version = "=1.0.229", features = ["derive"] }
serde_json = "=1.0.154"
sha1 = "=0.10.7"
sha2 = "=0.10.9"
napi = { version = "=2.16.17", features = ["napi4", "serde-json"] }
napi-derive = "=2.16.13"
pyo3 = "=0.22.6"
