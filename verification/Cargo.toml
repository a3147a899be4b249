[package]
name = "canopen_drive"
version = "0.1.0"
edition = "2021"
publish = false

[dependencies]
rust-ini = "0.21.3"
can-socket = { version = "0.1.6", features = ["tokio"] }
canopen-tokio = "0.0.1-alpha2"
clap = { version = "4.5", features = ["derive"] }
env_logger = "0.11"
futures = "0.3"
log = "0.4"
s_curve = "0.1.7"
serde = { version = "1", features = ["derive"] }
tokio = { version = "1", features = ["macros", "rt-multi-thread", "sync", "time"] }
toml = "0.8"
