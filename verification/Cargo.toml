[package]
name = "pong"
version = "0.1.0"
edition = "2021"
publish = false

[dependencies]
rand = "=0.9.5"
bevy = { version = "0.16", default-features = false, features = ["bevy_asset", "bevy_color", "bevy_core_pipeline", "bevy_pbr", "bevy_render", "bevy_sprite", "bevy_window", "std"] }
bevy_rapier2d = { version = "0.30", default-features = false, features = ["dim2", "debug-render-2d"] }
