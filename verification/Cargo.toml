[package]
name = "webdialog"
version = "0.1.0"
edition = "2021"
publish = false

[dependencies]
js-sys = "*"
wasm-bindgen = "*"
wasm-bindgen-futures = "*"
web-sys = { version = "*", features = ["Document", "Element", "HtmlElement", "HtmlInputElement", "HtmlButtonElement", "Node", "File", "FileList", "FileReader", "Blob", "EventTarget", "Window"] }
