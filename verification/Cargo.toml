[package]
name = "passmng"
version = "0.1.0"
edition = "2021"
publish = false

[dependencies]
rusqlite = { version = "0.31", features = ["bundled-sqlcipher"] }
dirs = "5"
crossterm = "0.25"
tui = "0.19"
