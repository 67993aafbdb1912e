[package]
name = "canvas_window"
version = "0.1.0"
edition = "2021"
publish = false

[dependencies]
log = "0.4"
wasm-bindgen = "0.2"
web-sys = { version = "0.3", features = ["Window", "Document", "Element", "HtmlElement", "HtmlCanvasElement", "CssStyleDeclaration", "WebGl2RenderingContext", "Event", "EventTarget", "MouseEvent", "WheelEvent", "TouchEvent", "TouchList", "Touch", "KeyboardEvent", "Performance"] }
