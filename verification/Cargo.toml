[package]
name = "firewheel-web-audio"
version = "0.1.0"
edition = "2021"
publish = false

[dependencies]
firewheel = { version = "=0.4.3", default-features = false }
js-sys = "=0.3.106"
log = "=0.4.34"
wasm-bindgen = "=0.2.129"
wasm-bindgen-futures = "=0.4.79"
web-sys = { version = "=0.3.106", features = ["AudioContext", "AudioContextOptions", "AudioDestinationNode", "AudioNode", "AudioWorklet", "AudioWorkletNode", "AudioWorkletNodeOptions", "BaseAudioContext"] }
