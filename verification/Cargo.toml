[package]
name = "watch_apps"
version = "0.1.0"
edition = "2021"
publish = false

[dependencies]
embedded-graphics = "0.8"
embedded-io = "0.6"
