[package]
name = "bevy_metalfx"
version = "0.4.2"
edition = "2021"
publish = false

[dependencies]
bevy = { version = "=0.19.1", default-features = false, features = ["bevy_render", "bevy_core_pipeline", "bevy_window"] }
log = "=0.4.35"
raw-window-handle = "=0.6.2"
objc2 = "=0.6.5"
objc2-foundation = "=0.3.2"
objc2-metal = "=0.3.2"
objc2-metal-fx = "=0.3.2"
block2 = "=0.6.2"
foreign-types = "=0.5.0"
