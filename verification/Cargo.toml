[package]
name = "blescan"
version = "0.1.0"
edition = "2021"
publish = false

[dependencies]
tokio = { version = "*", features = ["sync", "time", "rt-multi-thread", "macros"] }
btleplug = "*"
futures = "*"
ratatui = "*"
uuid = "*"
