[package]
name = "game_session"
version = "0.1.0"
edition = "2021"
publish = false

[dependencies]
instant = { version = "=0.1.13", features = ["wasm-bindgen"] }
serde = { version = "=1.0.229", features = ["derive"] }
serde_json = "=1.0.154"
wasm-bindgen = "=0.2.129"
web-sys = { version = "=0.3.106", features = ["Window", "Location", "History", "Storage", "Url", "UrlSearchParams", "console"] }
