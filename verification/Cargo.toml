[package]
name = "ruvc"
version = "0.1.0"
edition = "2021"
publish = false

[dependencies]
byteorder = "1"
log = "0.4"
rusb = "0.9"
uuid = "0.8"
