[package]
name = "shiguredo_svt_av1"
version = "2025.2.0"
edition = "2021"
publish = false

[dependencies]
log = "0.4"
