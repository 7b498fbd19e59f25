[package]
name = "engine_adapter"
version = "0.1.0"
edition = "2021"
publish = false

[dependencies]
winit = "0.30"
log = "0.4"
env_logger = "0.11"
pollster = "0.3"
futures = "0.3"
web-time = "1"
wasm-bindgen = "0.2"
wasm-bindgen-futures = "0.4"
web-sys = { version = "0.3", features = ["Window", "Document", "Element", "HtmlCanvasElement"] }
console_log = "1"
console_error_panic_hook = "0.1"
