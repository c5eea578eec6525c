[package]
name = "selfci"
version = "0.1.0"
edition = "2021"
publish = false

[dependencies]
ciborium = "0.2"
clap = { version = "4", features = ["derive", "env"] }
comfy-table = "7"
dirs = "*"
duct = "*"
humantime = "2"
libc = "0.2"
nix = { version = "*", features = ["fs", "process", "signal", "user"] }
scopeguard = "1"
serde = { version = "1", features = ["derive"] }
serde_json = "1"
serde_yaml = "0.9"
signal-hook = "0.3"
tempfile = "3"
tracing = "0.1"
tracing-subscriber = { version = "0.3", features = ["env-filter"] }
