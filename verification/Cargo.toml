[package]
name = "dbreadwrite"
version = "0.1.0"
edition = "2021"
publish = false

[dependencies]
serde_json = "=1.0.151"
rand = "=0.8.8"
chrono = "=0.4.45"
diesel = { version = "=1.4.8", features = ["postgres"] }
notify = "=4.0.18"
clap = { version = "=4.6.7", features = ["derive"] }
color-eyre = "*"
log = "=0.4.34"
pretty_env_logger = "=0.5.0"
signal-hook = "=0.3.18"
