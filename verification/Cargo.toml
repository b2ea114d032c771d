[package]
name = "blogi"
version = "0.1.0"
edition = "2021"
publish = false

[dependencies]
anyhow = "1"
async-trait = "0.1"
atrium-api = "*"
axum = "0.7"
chrono = "0.4"
clap = { version = "4", features = ["derive", "env"] }
http = "1"
redis = "*"
reqwest = { version = "0.12", default-features = false, features = ["json"] }
rocketman = "*"
serde = { version = "1", features = ["derive"] }
serde_json = "1"
sqlx = { version = "0.8", default-features = false, features = ["runtime-tokio", "postgres", "chrono"] }
thiserror = "2"
tokio = { version = "1", features = ["full"] }
tower-http = { version = "0.6", features = ["timeout", "trace"] }
tracing = "0.1"
tracing-subscriber = { version = "0.3", features = ["env-filter"] }
