[package]
name = "jay"
version = "0.1.0"
edition = "2021"
publish = false

[dependencies]
anyhow = "1"
byteorder = "1"
log = "0.4"
memmap = "0.7"
pretty_env_logger = "0.5"
thiserror = "1"
