[package]
name = "newsroom"
version = "0.1.0"
edition = "2021"
publish = false

[dependencies]
tokio = { version = "1", features = ["sync", "rt-multi-thread", "macros", "time"] }
rss = "2"
rand = "0.8"
reqwest = { version = "*", default-features = false }
crossterm = "*"
webbrowser = "*"
toml = "*"
serde = { version = "*", features = ["derive"] }
ratatui = "*"
textwrap = "*"
