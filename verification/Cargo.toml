[package]
name = "mypet"
version = "0.1.0"
edition = "2021"
publish = false

[dependencies]
ratatui = "*"
serde = { version = "*", features = ["derive"] }
tokio = { version = "*", features = ["macros", "rt", "time"] }
