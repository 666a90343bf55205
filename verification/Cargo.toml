[package]
name = "sync_config"
version = "0.1.0"
edition = "2021"
publish = false

[dependencies]
rusqlite = "=0.40.2"
