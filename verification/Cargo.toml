[package]
name = "skat_engine"
version = "0.1.0"
edition = "2021"
publish = false

[dependencies]
rand = "=0.9.5"
owo-colors = { version = "=4.4.0", features = ["supports-colors"] }
itertools = "=0.14.0"
clap = { version = "=4.6.7", features = ["derive"] }
ratatui = "=0.30.2"
crossterm = "=0.29.0"
tracing = "=0.1.44"
tracing-subscriber = { version = "=0.3.23", features = ["env-filter"] }
tracing-appender = "=0.2.5"
