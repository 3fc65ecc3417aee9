[package]
name = "burger_kitchen"
version = "0.1.0"
edition = "2021"
publish = false

[dependencies]
rand = "=0.8.8"
bevy = { version = "0.8", default-features = false, features = ["bevy_asset", "bevy_winit", "render", "png", "x11"] }
bevy_kira_audio = { version = "0.12", default-features = false, features = ["ogg"] }
bevy_asset_loader = { version = "0.12", features = ["2d"] }
bevy_tweening = "0.5"
bevy_pkv = "0.5"
