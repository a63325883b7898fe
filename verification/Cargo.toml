[package]
name = "quantum_loops"
version = "0.1.0"
edition = "2021"
publish = false

[dependencies]
wasm-bindgen = "=0.2.129"
js-sys = "=0.3.106"
web-sys = { version = "=0.3.106", features = [
    "Window",
    "Document",
    "Element",
    "Node",
    "HtmlElement",
    "HtmlCanvasElement",
    "CanvasRenderingContext2d",
    "CssStyleDeclaration",
    "TextMetrics",
    "EventTarget",
    "Event",
    "MouseEvent",
    "WheelEvent",
    "KeyboardEvent",
    "Touch",
    "TouchEvent",
    "TouchList",
    "Storage",
    "History",
    "Response",
    "Request",
    "console",
    "AudioContext",
    "BaseAudioContext",
    "AudioBuffer",
    "AudioBufferSourceNode",
    "AudioDestinationNode",
    "AudioNode",
    "AudioParam",
    "GainNode",
    "HtmlImageElement",
] }
wasm-bindgen-futures = "=0.4.79"
nalgebra = { version = "=0.29.0", features = ["serde-serialize"] }
noise = { version = "=0.7.0", default-features = false }
serde = { version = "1", features = ["derive"] }
serde_json = "1"
log = "0.4"
wasm-logger = "=0.2.0"
