[package]
name = "terrain_mesh"
version = "0.1.0"
edition = "2021"
publish = false

[dependencies]
bevy = { version = "0.15", default-features = false, features = ["bevy_render", "bevy_pbr", "bevy_core_pipeline", "bevy_asset", "bevy_state", "bevy_color"] }
noise = "*"
rand = "0.8"
smooth-bevy-cameras = "0.13"
