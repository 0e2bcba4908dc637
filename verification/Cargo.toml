[package]
name = "listing_feed"
version = "0.1.0"
edition = "2021"
publish = false

[dependencies]
atom_syndication = "0.12"
chrono = "0.4"
clap = { version = "4", features = ["derive"] }
reqwest = { version = "0.12", features = ["blocking"] }
scraper = "*"
url = "2"
