[package]
name = "linalg4"
version = "0.1.0"
edition = "2021"
publish = false

[dependencies]
wasm-bindgen = { version = "0.2", features = ["serde-serialize"] }
wasm-bindgen-futures = "0.4"
js-sys = "0.3"
serde = { version = "1", features = ["derive"] }
derive_more = "0.99"
web-sys = { version = "0.3", features = ["Window", "Document", "Element", "HtmlElement", "Node", "EventTarget", "Event", "UiEvent", "MouseEvent", "KeyboardEvent", "HtmlCanvasElement", "HtmlImageElement", "WebGl2RenderingContext", "WebGlBuffer", "WebGlVertexArrayObject", "WebGlProgram", "WebGlShader", "WebGlUniformLocation", "WebGlTexture", "Request", "RequestInit", "RequestMode", "Response"] }
