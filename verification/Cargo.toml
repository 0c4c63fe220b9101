[package]
name = "golden_gun"
version = "0.1.0"
edition = "2021"
publish = false

[dependencies]
bevy = { version = "=0.17.3", default-features = false, features = ["std", "bevy_asset", "bevy_color", "bevy_sprite", "bevy_state", "bevy_text", "bevy_ui", "bevy_window", "default_font"] }
