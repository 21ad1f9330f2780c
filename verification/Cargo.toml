[package]
name = "air_monitor"
version = "0.1.0"
edition = "2021"
publish = false

[dev-dependencies]
crc_all = "*"
