[package]
name = "trigger_relay"
version = "0.1.0"
edition = "2021"
publish = false

[dependencies]
anyhow = "=1.0.104"
clap = { version = "=4.6.7", features = ["derive"] }
glob = "=0.3.4"
nix = { version = "=0.31.3", features = ["inotify", "fs"] }
serde = { version = "=1.0.229", features = ["derive"] }
toml = "=1.1.7"
