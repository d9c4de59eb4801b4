[package]
name = "ara_kees"
version = "0.1.0"
edition = "2021"
publish = false

[dependencies]
common-game = "*"
crossbeam-channel = "*"
env_logger = "*"

[dev-dependencies]
once_cell = "*"
