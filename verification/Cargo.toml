[package]
name = "river_status"
version = "0.1.0"
edition = "2021"
publish = false

[dependencies]
wayland-client = "=0.29.5"
wayland-commons = "=0.29.5"
