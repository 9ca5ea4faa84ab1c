[package]
name = "tuitalk"
version = "0.1.0"
edition = "2021"
publish = false

[dependencies]
uuid = { version = "1", features = ["v4", "serde"] }
serde = { version = "1", features = ["derive"] }
bincode = "1.3"
anyhow = "1"
tokio = { version = "1", features = ["full"] }
tokio-tungstenite = "*"
futures-util = "0.3"
futures-channel = "0.3"
redis = { version = "*", features = ["tokio-comp"] }
dotenvy = "0.15"
diesel = { version = "2", features = ["postgres"] }
ratatui = "0.29"
color-eyre = "0.6"
dirs = "*"
chrono = "0.4"
log = "0.4"
yew = { version = "0.21", features = ["csr"] }
gloo-net = "0.6"
gloo-utils = "0.2"
js-sys = "0.3"
web-sys = { version = "0.3", features = ["HtmlElement", "HtmlInputElement", "InputEvent", "KeyboardEvent", "MouseEvent"] }
wasm-bindgen-futures = "0.4"
