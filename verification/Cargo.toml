[package]
name = "file_upload"
version = "0.1.0"
edition = "2021"
publish = false

[dependencies]
sanitize-filename = "=0.6.0"
axum = { version = "=0.8.9", features = ["multipart"] }
tokio = { version = "=1.53.2", features = ["rt-multi-thread", "macros", "net", "fs", "io-util"] }
tower-http = { version = "=0.7.1", features = ["cors"] }
