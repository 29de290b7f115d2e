[package]
name = "tring"
version = "0.1.0"
edition = "2021"
publish = false

[dependencies]
anyhow = "1"
log = "0.4"
env_logger = "*"
jni = "*"
lazy_static = "1"
libc = "0.2"
