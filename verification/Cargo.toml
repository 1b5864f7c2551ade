[package]
name = "canvas_syncer"
version = "0.1.0"
edition = "2021"
publish = false

[dependencies]
chrono = "=0.4.45"
clap = { version = "=4.6.7", features = ["derive"] }
clap-verbosity-flag = "=3.0.4"
fern = "=0.7.1"
futures = "=0.3.34"
humantime = "=2.4.0"
indicatif = "=0.18.6"
inquire = "=0.9.4"
log = "=0.4.35"
logger_rust_i18n = "=0.1.1"
reqwest = { version = "=0.12.28", default-features = false, features = ["json", "rustls-tls"] }
rust-i18n = "=4.2.4"
scraper = "=0.29.0"
serde = { version = "=1.0.229", features = ["derive"] }
serde_json = "=1.0.154"
sys-locale = "=0.3.2"
tokio = { version = "=1.54.1", features = ["full"] }
