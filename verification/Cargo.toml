[package]
name = "rssbot"
version = "0.1.0"
edition = "2021"
publish = false

[dependencies]
anyhow = "=1.0.104"
clap = { version = "=4.6.7", features = ["derive"] }
dptree = "=0.3.0"
either = "=1.19.0"
futures = "=0.3.34"
once_cell = "=1.21.4"
pinyin = "=0.10.0"
takecell = "=0.1.1"
teloxide = { version = "=0.12.2", default-features = false, features = ["macros", "ctrlc_handler", "rustls"] }
tokio = { version = "=1.54.1", features = ["macros", "rt-multi-thread", "sync", "time"] }
tokio-stream = "=0.1.19"
tokio-util = { version = "=0.7.20", features = ["time"] }
