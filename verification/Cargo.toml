[package]
name = "bevy_enhanced_camera"
version = "0.3.0"
edition = "2021"
publish = false

[dependencies]
bevy = { version = "=0.18.1", default-features = false, features = ["std", "bevy_log", "bevy_window"] }
bevy_enhanced_input = "=0.25.0"
avian3d = { version = "=0.6.1", default-features = false, features = ["3d", "f32", "parry-f32"] }
