[package]
name = "basis_transcoder"
version = "0.1.0"
edition = "2021"
publish = false

[dependencies]
wasm-bindgen = "=0.2.129"
js-sys = "=0.3.106"
wasm-bindgen-futures = "0.4"
