[package]
name = "pingpong_audio"
version = "0.1.0"
edition = "2021"
publish = false

[dependencies]
log = "*"
num = "*"
wasm-bindgen = "*"
web-sys = { version = "*", features = ["AudioContext", "AudioContextOptions", "BaseAudioContext", "AudioBuffer", "AudioBufferSourceNode", "AudioScheduledSourceNode", "AudioNode", "AudioParam", "GainNode", "AudioDestinationNode"] }
