[package]
name = "cube_player"
version = "0.1.0"
edition = "2021"
publish = false

[dependencies]
bevy = { version = "*", default-features = false, features = ["bevy_asset", "bevy_core_pipeline", "bevy_pbr", "bevy_render"] }
bevy_rapier3d = { version = "*", default-features = false, features = ["dim3"] }
