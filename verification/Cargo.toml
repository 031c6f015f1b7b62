[package]
name = "maschine_driver"
version = "0.1.0"
edition = "2021"
publish = false

[dependencies]
midly = "0.5"
serde = { version = "1", features = ["derive"] }
clap = { version = "4", features = ["derive"] }
config = { version = "*", default-features = false, features = ["toml"] }
hidapi = "*"
midir = "*"
