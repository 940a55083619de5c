[package]
name = "randpaper"
version = "0.1.0"
edition = "2021"
publish = false

[dependencies]
anyhow = "*"
clap = { version = "*", features = ["derive"] }
env_logger = "*"
figment = { version = "*", features = ["toml", "env"] }
fslock = "*"
log = "*"
parse_duration = "*"
rand = "*"
serde = { version = "*", features = ["derive"] }
serde_json = "*"
swayipc-async = "*"
tokio = { version = "*", features = ["full"] }
walkdir = "*"
xdg = "*"
