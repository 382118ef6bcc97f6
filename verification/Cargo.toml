[package]
name = "scd"
version = "0.1.0"
edition = "2021"
publish = false

[dependencies]
anyhow = "1"
crossbeam-channel = "0.4"
nix = "0.17"
notify = "=5.0.0-pre.2"
once_cell = "1"
regex = "1"
serde = { version = "1", features = ["derive"] }
serde_json = "1"
serde_yaml = "0.8"
strmode = "1"
structopt = "0.3"
sysinfo = "0.14"
termion = "1.5"
tui = "0.9"
unicode-width = "0.1"
