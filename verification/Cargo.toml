[package]
name = "wasi_messaging"
version = "0.1.0"
edition = "2021"
publish = false

[dependencies]
azure_messaging_servicebus = { version = "=0.20.0", default-features = false, features = ["enable_reqwest_rustls", "hmac_rust"] }
azure_core = { version = "=0.20.0", default-features = false, features = ["enable_reqwest_rustls", "hmac_rust"] }
wasmtime = "=21.0.2"
wasmtime-wasi = "=21.0.2"
wit-component = "=0.207.0"
anyhow = "=1.0.104"
async-trait = "=0.1.92"
tokio = { version = "=1.54.1", features = ["full"] }
