[package]
name = "borker-rs"
version = "0.1.0"
edition = "2021"
publish = false

[dependencies]
bitcoin = "0.29"
hex = "0.4"
chrono = "0.4"
serde = { version = "1", features = ["derive"] }
wasm-bindgen = "0.2"
js-sys = "0.3"
