[package]
name = "heave"
version = "0.1.0"
edition = "2021"
publish = false

[dependencies]
rusqlite = "=0.41.1"
