[package]
name = "driver"
version = "0.1.0"
edition = "2021"
publish = false

[dependencies]
clap = { version = "*", features = ["derive"] }
log = "*"
rusb = "*"
simple_logger = "*"
spin_sleep = "*"
