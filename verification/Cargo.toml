[package]
name = "rusty_ai"
version = "0.1.0"
edition = "2021"
publish = false

[dependencies]
wasmtime = "=46.0.3"
sha2 = "=0.10.9"
uuid = { version = "1", features = ["v4"] }
serde_json = "1"

[dev-dependencies]
wat = "*"
