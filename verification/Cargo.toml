[package]
name = "pbr_textures"
version = "0.1.0"
edition = "2021"
publish = false

[dependencies]
anyhow = "1"
env_logger = "0.8"
image = "0.23"
log = "0.4"
structopt = "0.3"
