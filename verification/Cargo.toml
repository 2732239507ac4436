[package]
name = "codefs"
version = "0.1.0"
edition = "2021"
publish = false

[dependencies]
futures = "=0.3.34"
js-sys = "=0.3.106"
tokio = { version = "=1.54.1", features = ["sync"] }
tracing = "=0.1.44"
virtual-fs = { version = "=0.11.4", default-features = false }
virtual-mio = "=0.3.1"
wasm-bindgen = "=0.2.129"
wasm-bindgen-derive = "=0.4.0"
wasm-bindgen-futures = "=0.4.79"
