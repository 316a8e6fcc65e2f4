[package]
name = "webgl_wrapper"
version = "0.1.0"
edition = "2021"
publish = false

[dependencies]
cgmath = { version = "*", features = ["serde"] }
js-sys = "*"
log = "*"
num-traits = "*"
serde = { version = "*", features = ["derive"] }
uid = "*"
wasm-bindgen = "*"
web-sys = { version = "*", features = ["Document", "Element", "HtmlCanvasElement", "HtmlImageElement", "WebGl2RenderingContext", "WebGlBuffer", "WebGlContextAttributes", "WebGlFramebuffer", "WebGlProgram", "WebGlRenderbuffer", "WebGlShader", "WebGlTexture", "WebGlUniformLocation", "WebGlVertexArrayObject", "Window"] }
