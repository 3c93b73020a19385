[package]
name = "market_model"
version = "0.1.0"
edition = "2021"
publish = false

[dependencies]
anyhow = "1"
rust_decimal = "1"
serde = { version = "1", features = ["derive"] }
thousands = "0.2"
ustr = { version = "1", features = ["serde"] }
