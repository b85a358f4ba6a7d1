[package]
name = "easycar"
version = "0.1.0"
edition = "2021"
publish = false

[dependencies]
chrono = "=0.4.45"
chrono-tz = "=0.10.4"
dotenvy = "0.15"
log = "0.4"
pretty_env_logger = "0.5"
regex = "=1.13.1"
reqwest = { version = "0.12", default-features = false, features = ["rustls-tls", "cookies", "json"] }
scraper = "=0.29.0"
serde = { version = "1", features = ["derive"] }
serde-aux = "4"
serde_urlencoded = "=0.7.1"
takecell = "=0.1.1"
teloxide = { version = "0.17", default-features = false, features = ["macros", "rustls", "ctrlc_handler"] }
thiserror = "2"
tokio = { version = "1", features = ["rt-multi-thread", "macros", "sync", "time"] }
url = "2"
