[package]
name = "form_autosave"
version = "0.1.0"
edition = "2021"
publish = false

[dependencies]
anyhow = "1"
console_log = "1"
js-sys = "0.3"
log = "0.4"
serde = { version = "1", features = ["derive"] }
serde-wasm-bindgen = "0.6"
thiserror = "1"
wasm-bindgen = "0.2"
wasm-bindgen-futures = "0.4"
web-sys = { version = "0.3", features = ["Document", "Element", "Event", "EventTarget", "HtmlInputElement", "HtmlSelectElement", "HtmlTextAreaElement", "Location", "Node", "NodeList", "Window"] }
