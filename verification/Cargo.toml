[package]
name = "personaliz"
version = "0.1.0"
edition = "2021"
publish = false

[dependencies]
cron = "*"
chrono = "*"
rusqlite = { version = "*", features = ["bundled"] }
which = "*"
dirs = "*"
