[package]
name = "mcp251xfd"
version = "0.1.0"
edition = "2021"
publish = false

[dependencies]
embedded-can = "=0.4.1"
embedded-hal = "=1.0.0"
embedded-hal-async = "=1.0.0"
