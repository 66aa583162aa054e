[package]
name = "yabai_get_windows"
version = "0.1.0"
edition = "2021"
publish = false

[dependencies]
serde_json = "1"
serde = { version = "1", features = ["derive"] }
anyhow = "1"
log = "0.4"
env_logger = "*"
humantime = "*"
which = "*"
either = "1"
alfred = { version = "*", default-features = false }
trait-set = "*"
