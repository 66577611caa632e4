[package]
name = "midi_sender"
version = "0.1.0"
edition = "2021"
publish = false

[dependencies]
tokio = { version = "1", features = ["sync", "rt-multi-thread", "macros", "time"] }
midir = "*"
rosc = "*"
serde = { version = "1", features = ["derive"] }
toml = "*"
