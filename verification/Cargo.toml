[package]
name = "proxy_fs"
version = "0.1.0"
edition = "2021"
publish = false

[dependencies]
virtual-fs = "=0.601.0"
serde = { version = "=1.0.229", features = ["derive"] }
serde_json = "=1.0.154"
futures = "=0.3.34"
js-sys = "=0.3.106"
wasm-bindgen = "=0.2.129"
sha2 = "=0.10.9"
bytes = "=1.12.1"
url = "=2.5.8"
webc = "=10.0.1"
wasmer-config = "=0.601.0"
anyhow = "=1.0.104"
async-trait = "=0.1.92"
http = "1"
