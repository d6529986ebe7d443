[package]
name = "release_song"
version = "0.1.0"
edition = "2021"
publish = false

[dependencies]
anyhow = "=1.0.104"
chrono = "=0.4.45"
clap = { version = "=4.6.7", features = ["derive"] }
futures = "=0.3.34"
octocrab = "=0.41.2"
regex = "=1.13.1"
reqwest = { version = "=0.12.28", default-features = false }
tokio = { version = "=1.54.1", features = ["full"] }
xml-rs = "=0.8.29"
