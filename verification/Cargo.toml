[package]
name = "hindsight_cli"
version = "0.1.0"
edition = "2021"
publish = false

[dependencies]
chrono = "0.4"
dirs = "*"
clap = { version = "4", features = ["derive"] }
colored = "*"
indicatif = "*"
serde = { version = "1", features = ["derive"] }
serde_json = "1"
walkdir = "2"
