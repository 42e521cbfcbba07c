[package]
name = "webgl_samples"
version = "0.1.0"
edition = "2021"
publish = false

[dependencies]
js-sys = "*"
nalgebra-glm = "*"
wasm-bindgen = "*"
web-sys = { version = "*", features = ["Document", "Element", "HtmlCanvasElement", "WebGlBuffer", "WebGlProgram", "WebGlRenderingContext", "WebGlShader", "WebGlUniformLocation", "Window"] }
