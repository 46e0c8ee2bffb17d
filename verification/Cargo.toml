[package]
name = "groovy"
version = "0.1.0"
edition = "2021"
publish = false

[dependencies]
ratatui = "0.28"
crossterm = "0.28"
rodio = "0.19"
lofty = "0.21"
walkdir = "2"
dirs = "5"
toml = "0.8"
serde = { version = "1", features = ["derive"] }
color-eyre = "0.6"
