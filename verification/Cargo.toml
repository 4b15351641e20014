[package]
name = "verbleiber"
version = "0.1.0"
edition = "2021"
publish = false

[dependencies]
anyhow = "*"
bimap = "*"
ctrlc = "*"
evdev = "*"
flume = "*"
log = "*"
rodio = "*"
serde = { version = "*", features = ["derive"] }
simple_logger = "*"
toml = "*"
