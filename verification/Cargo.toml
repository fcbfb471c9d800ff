[package]
name = "podcasts"
version = "0.1.0"
edition = "2021"
publish = false

[dependencies]
crossterm = "0.25"
html2text = "0.4"
rand = "0.8"
reqwest = "0.11"
rss = "2"
tokio = { version = "1", features = ["full"] }
tracing = "0.1"
tracing-appender = "0.2"
tracing-subscriber = "0.3"
tui = "0.19"
unicode-width = "0.1"
url = "2"
