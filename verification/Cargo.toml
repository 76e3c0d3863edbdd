[package]
name = "walk_the_dog"
version = "0.1.0"
edition = "2021"
publish = false

[dependencies]
rand = "0.8"
anyhow = "1"
async-trait = "0.1"
console_error_panic_hook = "0.1"
futures = "0.3"
js-sys = "0.3"
serde = { version = "1", features = ["derive"] }
serde_json = "1"
wasm-bindgen = "0.2"
wasm-bindgen-futures = "0.4"
web-sys = { version = "0.3", features = ["console", "Window", "Document", "Element", "Node", "HtmlElement", "HtmlCanvasElement", "CanvasRenderingContext2d", "HtmlImageElement", "Response", "Performance", "KeyboardEvent", "AudioContext", "AudioBuffer", "AudioBufferSourceNode", "AudioDestinationNode", "AudioNode"] }
