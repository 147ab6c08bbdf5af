[package]
name = "jobrunner"
version = "0.1.0"
edition = "2021"
publish = false

[dependencies]
uuid = { version = "*", features = ["v4"] }
tokio = { version = "*", features = ["full"] }
futures = "*"
nix = { version = "*", features = ["signal"] }
anyhow = "*"
log = "*"
pretty_env_logger = "*"
signal-hook = "*"
controlgroup = "*"
udev = "*"
