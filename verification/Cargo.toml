[package]
name = "speedtest"
version = "0.1.0"
edition = "2021"
publish = false

[dependencies]
clap = { version = "=4.6.7", features = ["derive"] }
crossterm = "=0.28.1"
futures-core = "=0.3.34"
ratatui = "=0.29.0"
reqwest = { version = "=0.12.28", default-features = false, features = ["rustls-tls", "stream"] }
tokio = { version = "=1.54.1", features = ["macros", "rt-multi-thread", "signal", "time"] }
