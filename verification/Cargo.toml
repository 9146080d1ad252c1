[package]
name = "bevy_micro_tools"
version = "0.1.0"
edition = "2021"
publish = false

[dependencies]
bevy = { version = "=0.17.3", default-features = false, features = ["std", "bevy_asset", "bevy_image", "bevy_render", "bevy_core_pipeline", "bevy_window", "bevy_log"] }
clap = { version = "=4.6.7", features = ["derive"] }
wgpu-types = "=26.0.0"
