[package]
name = "runner"
version = "0.1.0"
edition = "2021"
publish = false

[dependencies]
wgpu = { version = "=23.0.1", features = ["spirv"] }
egui = "=0.30.0"
egui-wgpu = "=0.30.0"
egui-winit = "=0.30.0"
futures = "=0.3.34"
glam = "=0.34.1"
structopt = "=0.3.26"
wasm-bindgen-futures = "=0.4.79"
web-sys = { version = "=0.3.106", features = ["Document", "Element", "HtmlCanvasElement", "HtmlElement", "Node", "Window"] }
