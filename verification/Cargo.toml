[package]
name = "tor_client"
version = "0.2.0"
edition = "2021"
publish = false

[dependencies]
log = "=0.4.35"
