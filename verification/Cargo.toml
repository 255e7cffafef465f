[package]
name = "press_here"
version = "0.1.0"
edition = "2021"
publish = false

[dependencies]
bevy = { version = "=0.17.3", default-features = false, features = ["std", "bevy_color", "bevy_gizmos"] }
dyn-clone = "=1.0.20"
