[package]
name = "sandstorm"
version = "0.1.0"
edition = "2021"
publish = false

[dependencies]
dust-devil-core = "*"
tokio = { version = "1", features = ["rt", "net", "io-util", "sync", "macros", "time", "signal"] }
crossterm = { version = "0.27", features = ["event-stream"] }
ratatui = "0.26"
time = { version = "0.3", features = ["local-offset"] }
