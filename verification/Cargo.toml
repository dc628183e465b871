[package]
name = "document_collection"
version = "0.1.0"
edition = "2021"
publish = false

[dependencies]
anyhow = "=1.0.104"
async-trait = "=0.1.92"
axum = "=0.6.20"
chrono = "=0.4.45"
futures = "=0.3.34"
http = "=0.2.12"
prost = "=0.12.6"
prost-wkt = "=0.5.1"
prost-wkt-types = { version = "=0.5.1", features = ["vendored-protox"] }
serde = { version = "=1.0.229", features = ["derive"] }
serde_json = "=1.0.154"
serde_yaml = "0.9"
sqlx = { version = "=0.7.4", default-features = false, features = ["postgres", "runtime-tokio", "uuid", "chrono", "json"] }
thiserror = "=1.0.69"
tokio = { version = "=1.54.1", features = ["full"] }
tonic = "=0.10.2"
tracing = "=0.1.44"
tracing-subscriber = "=0.3.23"
uuid = "=1.29.0"
