[package]
name = "typst_web"
version = "0.1.0"
edition = "2021"
publish = false

[dependencies]
typst = "=0.13.1"
typst-ide = "=0.13.1"
typst-svg = "=0.13.1"
chrono = "=0.4.45"
wasm-bindgen = "=0.2.129"
console_error_panic_hook = "=0.1.7"

[dev-dependencies]
typst-assets = { version = "=0.13.1", features = ["fonts"] }
