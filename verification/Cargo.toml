[package]
name = "passmng"
version = "0.1.0"
edition = "2021"
publish = false

[dependencies]
arboard = "3"
crossterm = "0.25"
dirs = "4"
rpassword = "7"
rusqlite = { version = "0.28", features = ["bundled-sqlcipher"] }
tui = "0.19"
