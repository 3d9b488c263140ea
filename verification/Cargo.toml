[package]
name = "starsector_mod_info_shared"
version = "0.1.0"
edition = "2021"
publish = false

[dependencies]
base64 = "=0.13.1"
chrono = { version = "=0.4.45", features = ["serde"] }
form_urlencoded = "=1.2.2"
futures-util = "=0.3.34"
js-sys = "=0.3.69"
rand = "=0.8.8"
serde = { version = "=1.0.229", features = ["derive"] }
serde-aux = "=4.7.0"
serde_json = "=1.0.154"
uuid = { version = "=1.16.0", features = ["v4", "serde"] }
wasm-bindgen = "=0.2.92"
worker = "=0.0.24"
