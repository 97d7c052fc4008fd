[package]
name = "teapod"
version = "0.1.0"
edition = "2021"
publish = false

[dependencies]
roxmltree = "*"
chrono = "*"
reqwest = { version = "*", default-features = false }
tokio = { version = "*", features = ["rt-multi-thread", "macros", "fs"] }
rodio = "*"
crossterm = "*"
ratatui = "*"
arboard = "*"
serde = { version = "*", features = ["derive"] }
serde_json = "*"
