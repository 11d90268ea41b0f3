[package]
name = "salus_ingest"
version = "0.1.0"
edition = "2021"
publish = false

[dependencies]
uuid = { version = "*", features = ["v7"] }
time = "*"
clickhouse = { version = "*", features = ["time", "uuid"] }
serde = { version = "*", features = ["derive"] }
serde_repr = "*"
thiserror = "*"
axum = "*"
axum-client-ip = "*"
http = "*"
hyper = "*"
tokio = { version = "*", features = ["full"] }
tower-http = { version = "*", features = ["compression-gzip", "compression-deflate", "cors", "timeout", "trace"] }
tracing-subscriber = { version = "*", features = ["env-filter"] }
