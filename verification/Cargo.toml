[package]
name = "wasm_embed"
version = "0.1.0"
edition = "2021"
publish = false

[dependencies]
anyhow = "=1.0.104"
once_cell = "=1.21.4"
serde = { version = "=1.0.229", features = ["derive"] }
serde_json = "=1.0.154"
tokio = { version = "=1.54.1", features = ["macros", "rt"] }
wasmedge-wasi-nn = "=0.8.0"
