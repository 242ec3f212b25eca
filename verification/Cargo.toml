[package]
name = "wasm_socket"
version = "0.1.0"
edition = "2021"
publish = false

[dependencies]
serde = { version = "=1.0.229", features = ["derive"] }
serde_json = "=1.0.151"
wasm-bindgen = "=0.2.129"
js-sys = "=0.3.106"
web-sys = { version = "=0.3.106", features = ["WebSocket", "MessageEvent", "ErrorEvent", "CloseEvent", "BinaryType", "console"] }
