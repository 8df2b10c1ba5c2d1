[package]
name = "earbuds"
version = "0.1.0"
edition = "2021"
publish = false

[dependencies]
galaxy_buds_rs = "*"
async-std = "*"
bluetooth-serial-port-async = "*"
blurz = "*"
clap = "*"
clap_complete = "*"
human-panic = "*"
log = "*"
mpris = "*"
nix = { version = "*", features = ["signal"] }
notify-rust = "*"
ofiles = "*"
pretty_env_logger = "*"
serde = { version = "*", features = ["derive"] }
serde_derive = "*"
serde_json = "*"
toml = "*"
