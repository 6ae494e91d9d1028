[package]
name = "clipman"
version = "0.1.0"
edition = "2021"
publish = false

[dependencies]
anyhow = "1"
arboard = "3"
clap = { version = "4", features = ["derive"] }
notify-rust = "4"
rmp-serde = "1"
serde = { version = "1", features = ["derive"] }
