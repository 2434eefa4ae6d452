[package]
name = "async_core"
version = "0.1.0"
edition = "2021"
publish = false

[dependencies]
futures-core = "0.3"
futures-io = "0.3"
futures-timer = "3"
once_cell = "1"
pin-project-lite = "0.2"
