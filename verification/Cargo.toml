[package]
name = "contributions"
version = "0.1.0"
edition = "2021"
publish = false

[dependencies]
scraper = "*"
chrono = "*"
clap = "2"
reqwest = { version = "*", default-features = false, features = ["blocking", "rustls-tls"] }
