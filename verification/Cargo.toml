[package]
name = "platformer"
version = "0.1.0"
edition = "2021"
publish = false

[dependencies]
bevy = { version = "=0.6.1", default-features = false, features = ["render", "bevy_winit", "png", "x11"] }
# bevy 0.6 parses whole items with syn 1 without asking for its `full`
# feature; this release of tracing-attributes is the one that asks for it.
tracing = "=0.1.37"
tracing-attributes = "=0.1.23"
