[package]
name = "music_presence"
version = "0.1.0"
edition = "2021"
publish = false

[dependencies]
discord-rich-presence = "=0.2.5"
lazy_static = "1"
mpris = "=2.0.1"
reqwest = { version = "0.12", features = ["blocking", "json"] }
serde_json = "1"
urlencoding = "=2.1.3"
