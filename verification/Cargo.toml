[package]
name = "playground"
version = "0.1.0"
edition = "2021"
publish = false

[dependencies]
num = "=0.4.3"
rand = "=0.9.5"
rgeometry = "=0.12.0"
once_cell = "=1.21.4"
wasm-bindgen = "=0.2.129"
gloo-events = "=0.1.2"
web-sys = { version = "=0.3.106", features = ["Window", "Document", "Element", "HtmlCanvasElement", "CanvasRenderingContext2d", "Path2d", "DomMatrix", "DomMatrixReadOnly", "DomPoint", "DomPointInit", "Event", "EventTarget", "UiEvent", "MouseEvent", "TouchEvent", "TouchList", "Touch", "CanvasWindingRule"] }
