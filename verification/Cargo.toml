[package]
name = "cursor_trail"
version = "0.1.0"
edition = "2021"
publish = false

[dependencies]
anyhow = "1"
clap = { version = "4", features = ["derive"] }
dirs = "5"
image = { version = "0.25", default-features = false, features = ["png", "jpeg", "gif", "webp"] }
notify = { version = "6", default-features = false }
serde = { version = "1", features = ["derive"] }
toml = "0.8"
