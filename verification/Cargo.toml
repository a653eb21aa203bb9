[package]
name = "axhash"
version = "0.1.0"
edition = "2021"
publish = false

[dependencies]
getrandom = "=0.3.4"
xxhash-rust = { version = "=0.8.19", features = ["xxh3"] }
wyhash = "=0.5.0"
ahash = "=0.8.12"
rustc-hash = "=2.1.3"
siphasher = "=1.0.4"
highway = "=1.3.0"
wasm-bindgen = "*"
pyo3 = "*"
