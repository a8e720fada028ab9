[package]
name = "vello_bench2"
version = "0.1.0"
edition = "2021"
publish = false

[dependencies]
serde = { version = "1", features = ["derive"] }
serde_json = "1"
web-sys = { version = "0.3", features = ["Window", "Storage", "Performance"] }
js-sys = "0.3"
wasm-bindgen = "0.2"
