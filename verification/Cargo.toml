[package]
name = "gameplay_systems"
version = "0.1.0"
edition = "2021"
publish = false

[dependencies]
bevy = { version = "=0.9.1", default-features = false, features = ["render", "animation", "bevy_asset", "bevy_scene"] }
bevy_egui = { version = "=0.19.0", default-features = false }
bevy_rapier2d = { version = "=0.20.0", default-features = false, features = ["dim2", "async-collider"] }
bevy_rapier3d = { version = "=0.20.0", default-features = false, features = ["dim3", "async-collider"] }
serde = { version = "=1.0.229", features = ["derive"] }
strum = { version = "=0.24.1", features = ["derive"] }
