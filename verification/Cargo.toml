[package]
name = "vasttrafik_news"
version = "0.1.0"
edition = "2021"
publish = false

[dependencies]
anyhow = "=1.0.104"
elefren = "=0.22.0"
env_logger = { version = "=0.10.2", default-features = false }
log = "=0.4.34"
reqwest = { version = "=0.11.27", default-features = false, features = ["default-tls"] }
scraper = "=0.29.0"
serde = { version = "=1.0.229", features = ["derive"] }
tokio = { version = "=1.54.1", features = ["macros", "rt-multi-thread", "time"] }
toml = "=1.1.8"
