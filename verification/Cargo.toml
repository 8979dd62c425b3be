[package]
name = "gol_backend"
version = "0.1.0"
edition = "2021"
publish = false

[dependencies]
console_error_panic_hook = "*"
js-sys = "*"
wasm-bindgen = "*"
wee_alloc = "*"
