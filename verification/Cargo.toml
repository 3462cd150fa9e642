[package]
name = "roblox-buffer"
version = "0.1.0"
edition = "2021"
publish = false

[dependencies]
data-encoding = "2"
serde = { version = "1", features = ["derive"] }
zstd = "0.13"

[dev-dependencies]
serde_json = "1"
