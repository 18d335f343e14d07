[package]
name = "waka_tray"
version = "0.1.0"
edition = "2021"
publish = false

[dependencies]
toml = "*"
dirs = "*"
chrono = "*"
serde = { version = "*", features = ["derive"] }
reqwest = { version = "*", default-features = false, features = ["blocking", "json", "rustls-tls"] }
log = "*"
env_logger = "*"
tao = "*"
tray-icon = "*"
core-foundation = "*"
