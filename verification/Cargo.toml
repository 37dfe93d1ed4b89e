[package]
name = "pinball_control"
version = "0.1.0"
edition = "2021"
publish = false

[dependencies]
bevy = { version = "0.16", default-features = false, features = ["std", "async_executor", "bevy_asset", "bevy_color", "bevy_core_pipeline", "bevy_gizmos", "bevy_log", "bevy_pbr", "bevy_render", "bevy_window"] }
avian3d = "0.3"
