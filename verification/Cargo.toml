[package]
name = "bevy_cursor"
version = "0.1.0"
edition = "2021"
publish = false

[dependencies]
bevy = { version = "=0.15.3", default-features = false, features = ["bevy_asset", "bevy_render", "bevy_window"] }
smallvec = "=1.16.4"
