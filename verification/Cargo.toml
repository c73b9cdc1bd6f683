[package]
name = "lagon_deploy"
version = "0.1.0"
edition = "2021"
publish = false

[dependencies]
anyhow = "1"
colored = "2"
hyper = { version = "0.14", features = ["client", "http1", "tcp"] }
hyper-tls = "0.5"
log = { version = "0.4", features = ["kv"] }
pathdiff = "0.2"
serde = { version = "1", features = ["derive"] }
serde_json = "1"
urlencoding = "2"
v8 = "*"
walkdir = "2"
