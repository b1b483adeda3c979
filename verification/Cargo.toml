[package]
name = "review_form"
version = "0.1.0"
edition = "2021"
publish = false

[dependencies]
js-sys = "=0.3.106"
serde = { version = "=1.0.229", features = ["derive"] }
serde-wasm-bindgen = "=0.6.5"
tungstenite = "=0.30.0"
url = "=2.5.8"
wasm-bindgen = "=0.2.129"
web-sys = { version = "=0.3.106", features = ["HtmlInputElement", "Window"] }
yew = { version = "=0.23.0", features = ["csr"] }
