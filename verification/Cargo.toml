[package]
name = "libnest"
version = "0.1.0"
edition = "2021"
publish = false

[dependencies]
rand = "0.7"
tar = "0.4"
toml = "0.5"
serde = { version = "1", features = ["derive"] }
failure = "0.1"
indicatif = "0.11"
lazy_static = "1"
