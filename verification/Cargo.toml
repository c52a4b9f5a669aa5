[package]
name = "prm"
version = "1.0.2"
edition = "2021"
publish = false

[dependencies]
anyhow = "1"
chrono = "0.4"
clap = { version = "4", features = ["derive"] }
crossterm = "0.28"
directories = "5"
ratatui = "0.29"
rusqlite = { version = "0.32", features = ["bundled"] }
unicode-width = "0.2"

[dev-dependencies]
tempfile = "3"
