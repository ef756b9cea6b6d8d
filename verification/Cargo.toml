[package]
name = "napi_sandbox"
version = "0.1.0"
edition = "2021"
publish = false

[dependencies]
napi = { version = "=2.16.17", features = ["napi5", "serde-json"] }
napi-derive = "=2.16.13"
serde = "=1.0.229"
