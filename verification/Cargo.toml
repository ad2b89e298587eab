[package]
name = "get_it_going"
version = "0.1.0"
edition = "2021"
publish = false

[dependencies]
toml = "*"
shlex = "*"
log = "*"
env_logger = "*"
anyhow = "*"
