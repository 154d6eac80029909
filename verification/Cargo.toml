[package]
name = "fly_scene"
version = "0.1.0"
edition = "2021"
publish = false

[dependencies]
bevy = "=0.5.0"
bevy_fly_camera = "=0.7.0"
bevy_rapier3d = "=0.9.0"
rapier3d = "=0.7.2"
