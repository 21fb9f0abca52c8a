[package]
name = "poly_tag"
version = "0.1.0"
edition = "2021"
publish = false

[dependencies]
axum = { version = "0.6", features = ["headers", "multipart", "macros"] }
chrono = { version = "0.4", features = ["serde"] }
crc32fast = "1"
diesel = { version = "2", default-features = false, features = ["postgres_backend", "uuid", "chrono"] }
diesel-async = { version = "*", features = ["postgres", "deadpool"] }
futures = "0.3"
infer = "0.15"
meilisearch-sdk = "*"
mime_guess = "2"
num_cpus = "1"
serde = { version = "1", features = ["derive"] }
serde_json = "1"
thiserror = "1"
tokio = { version = "1", features = ["full"] }
tracing = "0.1"
tracing-subscriber = "0.3"
uuid = { version = "1", features = ["v4", "serde"] }
