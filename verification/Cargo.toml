[package]
name = "ads1263"
version = "0.1.0"
edition = "2021"
publish = false

[dependencies]
rppal = "*"
ctrlc = "*"
env_logger = "*"
log = "*"
thiserror = "*"
