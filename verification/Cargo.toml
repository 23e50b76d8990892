[package]
name = "ball_game"
version = "0.1.0"
edition = "2021"
publish = false

[dependencies]
rand = "0.9"
nanoid = "0.4"
dashmap = "6"
axum = "0.8"
tokio = { version = "1", features = ["macros", "net", "rt-multi-thread"] }
serde = { version = "1", features = ["derive"] }
bevy = { version = "0.17", default-features = false, features = ["bevy_asset", "bevy_sprite", "bevy_state", "bevy_window", "std"] }
bevy_kira_audio = { version = "0.24", default-features = false, features = ["ogg"] }
