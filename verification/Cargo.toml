[package]
name = "mrs_funding"
version = "0.1.0"
edition = "2021"
publish = false

[dependencies]
anyhow = "*"
axum = "=0.8.9"
axum_csrf = { version = "=0.11.0", features = ["layer"] }
axum-server = "=0.8.0"
dotenv = "*"
http = "*"
hyper = "*"
md5 = "=0.8.1"
rusqlite = { version = "=0.40.2", features = ["bundled"] }
serde = { version = "*", features = ["derive"] }
thiserror = "*"
tokio = { version = "*", features = ["macros", "rt-multi-thread"] }
tower-sessions = "=0.15.0"
