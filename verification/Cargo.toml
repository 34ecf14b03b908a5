[package]
name = "dormnet_setup"
version = "0.1.0"
edition = "2021"
publish = false

[dependencies]
random-string = "1"
whoami = "1"
os_info = { version = "3", default-features = false }
dialoguer = { version = "0.11", default-features = false }
colored = "2"
