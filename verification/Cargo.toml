[package]
name = "hayaku_ike"
version = "0.1.0"
edition = "2021"
publish = false

[dependencies]
chrono = "0.4"
clap = { version = "4", features = ["derive"] }
colored = "2"
lazy_static = "1"
nix = { version = "*", features = ["signal", "user"] }
notify-rust = "4"
serde = { version = "1", features = ["derive"] }
toml = "*"
tray-item = { version = "*", features = ["ksni"] }
