[package]
name = "pricecontrol"
version = "0.1.0"
edition = "2021"
publish = false

[dependencies]
time = { version = "*", features = ["parsing", "local-offset", "formatting"] }
serde = { version = "*", features = ["derive"] }
serde_json = "*"
toml = "*"
tiny_http = "*"
urlencoding = "*"
dirs = "*"
log = "*"
env_logger = "*"
anyhow = "*"
thiserror = "*"
reqwest = { version = "*", default-features = false, features = ["blocking", "json"] }
