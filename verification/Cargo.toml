[package]
name = "glazier"
version = "0.1.0"
edition = "2021"
publish = false

[dependencies]
anyhow = "1"
flo_binding = "*"
instant = "0.1"
keyboard-types = "0.7"
nix = "0.26"
raw-window-handle = "0.6"
tracing = "0.1"
wasm-bindgen = "0.2"
web-sys = { version = "0.3", features = ["CanvasRenderingContext2d", "CssStyleDeclaration", "Document", "Element", "Event", "EventTarget", "HtmlCanvasElement", "HtmlElement", "KeyboardEvent", "MouseEvent", "UiEvent", "WheelEvent", "Window"] }
x11rb = { version = "0.12", features = ["allow-unsafe-code", "cursor", "render", "resource_manager", "xinput", "xkb"] }
