[package]
name = "json_reflect_asset"
version = "0.1.0"
edition = "2021"
publish = false

[dependencies]
serde = "*"
serde_json = "*"
thiserror = "*"
bevy_app = "*"
bevy_asset = "*"
bevy_ecs = "*"
bevy_reflect = "*"
