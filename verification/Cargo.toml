[package]
name = "ghi"
version = "0.1.0"
edition = "2021"
publish = false

[dependencies]
anyhow = "=1.0.104"
clap = { version = "=4.6.7", features = ["derive"] }
dirs = "=7.0.0"
futures-util = "=0.3.34"
indicatif = "=0.18.6"
octocrab = "=0.41.2"
reqwest = { version = "=0.12.28", default-features = false, features = ["rustls-tls", "stream"] }
tokio = { version = "=1.53.2", features = ["macros", "rt-multi-thread"] }
