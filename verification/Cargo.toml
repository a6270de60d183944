[package]
name = "auctionresult"
version = "0.1.0"
edition = "2021"
publish = false

[dependencies]
cusip = "*"
reqwest = { version = "*", default-features = false, features = ["blocking", "json", "rustls-tls"] }
serde = { version = "*", features = ["derive"] }
serde_json = "*"
chrono = { version = "*", features = ["serde"] }
clap = { version = "*", features = ["derive"] }
prettytable-rs = "*"
