[package]
name = "uv_workspace"
version = "0.1.0"
edition = "2021"
publish = false

[dependencies]
toml = "0.8"
chrono = "0.4"
fs-err = "2"
