[package]
name = "jam_games"
version = "0.1.0"
edition = "2021"
publish = false

[dependencies]
rand = "0.9"
regex = "1"
bevy = { version = "0.17", default-features = false, features = ["bevy_state", "std"] }
