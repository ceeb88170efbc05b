[package]
name = "blackguard"
version = "0.1.0"
edition = "2021"
publish = false

[dependencies]
rand = "0.9"
clap = { version = "4", features = ["derive"] }
serde = { version = "1", features = ["derive"] }
serde_json = "1"
directories = "6"
anyhow = "1"
ratatui = "0.29"
tachyonfx = "0.19"
tui-big-text = "0.7"
