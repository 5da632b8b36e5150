[package]
name = "day-piece-webview"
version = "0.4.3"
edition = "2021"
publish = false

[dependencies]
day-core = "*"
day-reactive = "*"
day-spec = "*"
day-pieces = "*"
day-bridge = "*"
log = "*"
