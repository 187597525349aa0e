[package]
name = "bevy_steam_audio"
version = "0.1.0"
edition = "2021"
publish = false

[dependencies]
bevy = { version = "0.15", default-features = false, features = ["bevy_asset", "bevy_audio"] }
rodio = { version = "0.20", default-features = false }
steam-audio = "*"
