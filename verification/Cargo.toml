[package]
name = "yral_billing"
version = "0.1.0"
edition = "2021"
publish = false

[dependencies]
axum = "0.7"
base64 = "0.22"
chrono = "0.4"
diesel = { version = "2", features = ["sqlite", "chrono"] }
diesel_migrations = "2"
google-cloud-auth = "0.17"
ic-agent = "*"
reqwest = { version = "0.12", features = ["json"] }
serde = { version = "1", features = ["derive"] }
serde_json = "1"
stringreader = "*"
thiserror = "1"
tokio = { version = "1", features = ["full"] }
utoipa = "*"
uuid = { version = "1", features = ["v4"] }
