[package]
name = "rdf_proofs_wasm"
version = "0.1.0"
edition = "2021"
publish = false

[dependencies]
rdf-proofs = { version = "=0.11.1", default-features = false }
wasmer = { version = "=5.0.6", default-features = false, features = ["sys"] }
oxttl = "=0.1.8"
rand = "=0.8.8"
serde = { version = "=1.0.229", features = ["derive"] }
wasm-bindgen = "=0.2.129"
serde-wasm-bindgen = "=0.6.5"
console_error_panic_hook = "=0.1.7"
