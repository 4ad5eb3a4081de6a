[package]
name = "fourbuttons"
version = "0.1.0"
edition = "2021"
publish = false

[dependencies]
anyhow = "1"
chrono = "0.4"
curl = "0.4"
env_logger = "*"
log = "0.4"
rppal = "*"
rusqlite = "*"
