[package]
name = "invasion"
version = "0.1.0"
edition = "2021"
publish = false

[dependencies]
bevy = { version = "=0.11.3", default-features = false }
bevy_turborand = "=0.6.0"
rand = { version = "0.8", features = ["small_rng"] }
serde = { version = "=1.0.229", features = ["derive"] }
