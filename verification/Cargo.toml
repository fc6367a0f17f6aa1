[package]
name = "rnl"
version = "0.1.0"
edition = "2021"
publish = false

[dependencies]
anyhow = "1"
clap = { version = "4", features = ["derive"] }
colored = "2"
env_logger = "0.11"
gtk4 = "*"
handlebars = "*"
log = "0.4"
once_cell = "1"
parking_lot = "0.12"
rquickjs = "*"
rust-embed = "*"
serde = { version = "1", features = ["derive"] }
serde_json = "1"
thiserror = "*"
toml = "*"
walkdir = "2"
