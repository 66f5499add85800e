[package]
name = "quote_batch"
version = "0.1.0"
edition = "2021"
publish = false

[dependencies]
scraper = "*"
urlencoding = "*"
serde = { version = "*", features = ["derive"] }
serde_json = "*"
futures = { version = "*", features = ["executor"] }
