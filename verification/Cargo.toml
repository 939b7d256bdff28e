[package]
name = "immich_exif_tool"
version = "0.1.0"
edition = "2021"
publish = false

[dependencies]
jiff = "0.2"
anyhow = "1"
clap = { version = "4", features = ["derive", "env"] }
comfy-table = "7"
console = "*"
dotenvy = "0.15"
indicatif = "*"
rayon = "1"
reqwest = { version = "0.12", default-features = false, features = ["blocking", "json"] }
rustc-hash = "2"
serde = { version = "1", features = ["derive"] }
serde_json = "1"
sonic-rs = "*"
urlencoding = "2"
walkdir = "2"
