[package]
name = "screenshot_sorter"
version = "0.1.0"
edition = "2021"
publish = false

[dependencies]
regex = "1"
notify = "6"
signal-hook = "0.3"
clap = { version = "4", features = ["derive"] }
anyhow = "1"
