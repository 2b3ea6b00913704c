[package]
name = "object_gateway"
version = "0.1.0"
edition = "2021"
publish = false

[dependencies]
url = "*"
aws-config = "*"
aws-sdk-s3 = "*"
axum = "*"
axum-macros = "*"
bytes = "*"
dotenvy = "*"
http = "*"
reqwest = { version = "*", default-features = false, features = ["rustls-tls"] }
serde = { version = "*", features = ["derive"] }
serde_json = "*"
thiserror = "*"
tokio = { version = "*", features = ["macros", "rt-multi-thread", "net"] }
tower = "*"
tower-http = { version = "*", features = ["trace"] }
tracing = "*"
tracing-subscriber = "*"
validator = { version = "*", features = ["derive"] }
