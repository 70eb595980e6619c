[package]
name = "rdpclient"
version = "0.1.0"
edition = "2021"
publish = false

[dependencies]
rand = "=0.8.8"
rand_chacha = "=0.3.1"
rdp-rs = "*"
libc = "=0.2.190"
log = "=0.4.34"
env_logger = "=0.11.11"
