[package]
name = "osc_bridge"
version = "0.1.0"
edition = "2021"
publish = false

[dependencies]
rosc = "*"
bytemuck = "*"
tokio = { version = "*", features = ["full"] }
clap = { version = "*", features = ["derive"] }
log = "*"
env_logger = "*"
