[package]
name = "vim_engine"
version = "0.1.0"
edition = "2021"
publish = false

[dependencies]
bevy = { version = "=0.18.1", default-features = false, features = ["bevy_window", "bevy_asset", "bevy_scene"] }
houdini_ramen = "=0.0.5"
