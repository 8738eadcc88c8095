[package]
name = "qol_store"
version = "0.1.0"
edition = "2021"
publish = false

[dependencies]
rusqlite = "*"
chrono = "*"
clap = { version = "*", features = ["derive"] }
