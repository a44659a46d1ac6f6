[package]
name = "oic"
version = "0.1.0"
edition = "2021"
publish = false

[dependencies]
chrono = "*"
clap = "*"
env_logger = "*"
libc = "*"
log = "*"
serde = { version = "*", features = ["derive"] }
serde_yaml = "*"
shell-words = "*"
tempfile = "*"
uname = "*"
