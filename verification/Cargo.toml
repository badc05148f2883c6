[package]
name = "attendance_report"
version = "0.1.0"
edition = "2021"
publish = false

[dependencies]
anyhow = "1"
calamine = "*"
chrono = "0.4"
encoding_rs = "0.8"
indexmap = { version = "2", features = ["serde"] }
regex = "1"
rust_xlsxwriter = "*"
scraper = "*"
serde = { version = "1", features = ["derive"] }
serde_json = "1"
