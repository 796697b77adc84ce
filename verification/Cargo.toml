[package]
name = "pdfg-rs"
version = "0.1.0"
edition = "2021"
publish = false

[dependencies]
chrono = "0.4"
rss = "2"
serde = { version = "1", features = ["derive"] }
toml = "0.8"
xml-rs = "0.8"
