[package]
name = "security_monitor"
version = "0.1.0"
edition = "2021"
publish = false

[dependencies]
memoffset = "0.9"
