[package]
name = "dbsink"
version = "0.1.0"
edition = "2021"
publish = false

[dependencies]
anyhow = "1"
lazy_static = "1"
odbc-api = "*"
tokio = { version = "1", features = ["rt", "sync"] }
tracing = "0.1"
