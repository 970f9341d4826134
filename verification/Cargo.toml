[package]
name = "independent_transform"
version = "0.1.0"
edition = "2021"
publish = false

[dependencies]
bevy = { version = "0.8", default-features = false, features = ["bevy_asset", "bevy_core_pipeline", "bevy_render", "bevy_sprite", "bevy_text"] }
glam = { version = "*", features = ["bytemuck"] }
bytemuck = "*"
