[package]
name = "nekotatsu_pipeline"
version = "0.1.0"
edition = "2021"
publish = false

[dependencies]
zip = { version = "=2.6.1", default-features = false, features = ["deflate"] }
serde = { version = "=1.0.229", features = ["derive"] }
serde_json = "=1.0.154"
tracing-subscriber = "=0.3.23"
dioxus = { version = "*", default-features = false, features = ["macro", "html", "signals", "hooks", "logger"] }
futures = "0.3"
wasm-bindgen = "0.2"
serde-wasm-bindgen = "*"
