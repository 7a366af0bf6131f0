[package]
name = "broadcast_hub"
version = "0.1.0"
edition = "2021"
publish = false

[dependencies]
async-std = { version = "*", features = ["attributes"] }
futures = "*"
log = "*"
log4rs = "*"
once_cell = "*"
serde = { version = "*", features = ["derive"] }
serde_yaml = "*"
tmq = "*"
