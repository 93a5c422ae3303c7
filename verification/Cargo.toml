[package]
name = "paddle_games"
version = "0.1.0"
edition = "2021"
publish = false

[dependencies]
bevy = { version = "=0.18.1", default-features = false }
rand = "=0.10.3"
