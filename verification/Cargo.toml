[package]
name = "fluvio-web"
version = "0.1.0"
edition = "2021"
publish = false

[dependencies]
url = "=2.5.8"
http = "=1.5.0"
fluvio = { version = "=0.50.1", default-features = false, features = ["admin"] }
fluvio-future = { version = "=0.8.3", features = ["net", "timer", "subscriber"] }
anyhow = "1"
serde = { version = "1", features = ["derive"] }
serde_json = "1"
serde_qs = "=1.1.3"
async-trait = "0.1"
futures-util = { version = "0.3", features = ["io"] }
async-tungstenite = { version = "=0.35.0", features = ["async-std-runtime"] }
async-channel = "2"
tokio = { version = "1", features = ["macros"] }
tracing = "0.1"
actix = "0.13"
actix-web = { version = "4", default-features = false, features = ["macros", "ws"] }
actix-web-actors = "4"
ctrlc = "3"
leptos = "0.7"
leptos_meta = "0.7"
web-sys = { version = "0.3", features = ["Window", "Document", "HtmlElement", "Element", "CustomElementRegistry"] }
js-sys = "0.3"
wasm-bindgen = "0.2"
ws_stream_wasm = "0.7"
custom-element = "*"
