[package]
name = "thermal_receipt"
version = "0.1.0"
edition = "2021"
publish = false

[dependencies]
anyhow = "=1.0.104"
bmp = "=0.5.0"
escpos = { version = "=0.20.1", features = ["graphics", "ui"] }
