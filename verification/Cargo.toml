[package]
name = "tlint"
version = "0.1.0"
edition = "2021"
publish = false

[dependencies]
async-compat = "=0.2.6"
clap = { version = "=4.6.7", features = ["derive"] }
colored = "=2.2.0"
futures = "=0.3.34"
jsonschema = { version = "=0.17.1", default-features = false, features = ["draft201909"] }
lychee-lib = { version = "=0.15.1", default-features = false, features = ["rustls-tls"] }
rhai = { version = "=1.27.0", features = ["internals"] }
serde = { version = "=1.0.229", features = ["derive"] }
serde-wasm-bindgen = "=0.5.0"
serde_json = "=1.0.154"
serde_yaml = "0.9"
wasm-bindgen = "=0.2.129"
yaml-rust = "=0.4.5"
