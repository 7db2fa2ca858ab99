[package]
name = "flipkart_scraper_api"
version = "0.1.0"
edition = "2021"
publish = false

[dependencies]
url = "=2.5.8"
serde_json = "=1.0.151"
flipkart_scraper = { version = "=0.5.0", features = ["fetch"] }
axum = "=0.8.9"
tokio = { version = "=1.53.2", features = ["full"] }
