[package]
name = "gpuboy_core"
version = "0.1.0"
edition = "2021"
publish = false

[dependencies]
wasm-bindgen = "0.2"
wasm-bindgen-futures = "0.4"
js-sys = "0.3"
console_error_panic_hook = "0.1"
web-sys = { version = "0.3", features = ["console", "Window", "Document", "Element", "HtmlCanvasElement", "AudioContext", "AudioContextOptions", "BaseAudioContext", "AudioNode", "AudioDestinationNode", "ScriptProcessorNode", "AudioProcessingEvent", "AudioBuffer"] }
