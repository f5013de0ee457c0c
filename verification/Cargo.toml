[package]
name = "response_compression"
version = "0.1.0"
edition = "2021"
publish = false

[dependencies]
async-compression = { version = "*", features = ["futures-io", "gzip", "brotli"] }
futures = "*"
