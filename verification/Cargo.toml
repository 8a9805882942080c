[package]
name = "docx_parts"
version = "0.1.0"
edition = "2021"
publish = false

[dependencies]
serde = { version = "=1.0.229", features = ["derive"] }
xml-rs = "=0.8.29"
