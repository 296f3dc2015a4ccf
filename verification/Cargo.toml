[package]
name = "snake"
version = "0.1.0"
edition = "2021"
publish = false

[dependencies]
js-sys = "0.3"
log = "0.4"
wasm-bindgen = "0.2"
web-sys = { version = "0.3", features = ["CanvasRenderingContext2d", "Document", "Element", "HtmlCanvasElement", "KeyboardEvent", "Window"] }
