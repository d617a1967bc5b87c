[package]
name = "webgl_cube"
version = "0.1.0"
edition = "2021"
publish = false

[dependencies]
gl_matrix = "*"
js-sys = "0.3"
wasm-bindgen = "0.2"
web-sys = { version = "0.3", features = ["Document", "Element", "HtmlCanvasElement", "WebGlBuffer", "WebGlProgram", "WebGlRenderingContext", "WebGlShader", "WebGlUniformLocation", "Window"] }
