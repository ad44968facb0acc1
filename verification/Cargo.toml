[package]
name = "i2p_client"
version = "0.1.0"
edition = "2021"
publish = false

[dependencies]
base64 = "0.13"
clap = "2"
dirs = "*"
log = "0.4"
simple_logger = "1"
