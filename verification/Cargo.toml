[package]
name = "truchet_studio"
version = "0.1.0"
edition = "2021"
publish = false

[dependencies]
base64 = "=0.23.1"
image = "=0.25.10"
svg = "=0.13.1"
truchet = "=0.1.1"
yew = { version = "=0.23.0", features = ["csr"] }
gloo = "=0.12.0"
gloo-console = "=0.4.0"
js-sys = "=0.3.106"
wasm-bindgen = "=0.2.129"
web-sys = { version = "=0.3.106", features = ["DataTransfer", "DragEvent", "MouseEvent", "Event", "FileList", "HtmlInputElement", "Window", "Document", "Element", "File"] }
