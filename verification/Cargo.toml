[package]
name = "multiplayer_bevy"
version = "0.1.0"
edition = "2021"
publish = false

[dependencies]
bevy = { version = "=0.15.1", default-features = false, features = ["bevy_asset", "bevy_core_pipeline", "bevy_pbr", "bevy_render", "bevy_sprite"] }
bevy_renet = "=1.0.0"
renet = "=1.0.0"
renet_netcode = "=1.0.0"
bincode = "=1.3.3"
serde = { version = "=1.0.229", features = ["derive"] }
once_cell = "=1.21.4"
