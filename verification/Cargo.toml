[package]
name = "neis_client"
version = "0.1.0"
edition = "2021"
publish = false

[dependencies]
form_urlencoded = "1"
http-body-util = "0.1"
hyper = { version = "1", features = ["client", "http1"] }
hyper-tls = "0.6"
hyper-util = { version = "0.1", features = ["client-legacy", "http1", "tokio"] }
serde = { version = "1", features = ["derive"] }
serde_json = "1"
tracing = "0.1"
