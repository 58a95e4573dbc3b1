[package]
name = "bevy_prototype_particles"
version = "0.1.0"
edition = "2021"
publish = false

[dependencies]
rand = "=0.8.8"
bevy = { version = "0.18", default-features = false }
