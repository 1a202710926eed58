[package]
name = "ease_music"
version = "0.1.0"
edition = "2021"
publish = false

[dependencies]
anyhow = "1"
argh = "0.1"
crossterm = "0.20"
dirs = "3"
reqwest = { version = "0.11", default-features = false, features = ["blocking", "json", "cookies"] }
rodio = "0.14"
serde = { version = "1", features = ["derive"] }
serde_json = "1"
tui = { version = "0.16", default-features = false, features = ["crossterm"] }

[dev-dependencies]
regex = "1"
