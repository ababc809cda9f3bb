[package]
name = "tetrophys"
version = "0.1.0"
edition = "2021"
publish = false

[dependencies]
rand = "=0.10.3"
bevy = { version = "*", default-features = false }
bevy_rapier2d = "*"
