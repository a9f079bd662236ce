[package]
name = "music_remote"
version = "0.1.0"
edition = "2021"
publish = false

[dependencies]
anyhow = "=1.0.104"
crossterm = "=0.29.0"
image = "=0.25.10"
ratatui = "=0.30.2"
ratatui-image = { version = "=11.1.0", default-features = false, features = ["image-defaults", "crossterm"] }
serde = { version = "=1.0.229", features = ["derive"] }
serde_json = "=1.0.151"
tokio = { version = "=1.53.2", features = ["rt-multi-thread", "macros", "time"] }
unicode-width = "=0.2.2"
