[package]
name = "session_auth"
version = "0.1.0"
edition = "2021"
publish = false

[dependencies]
anyhow = "1"
async-trait = "0.1"
axum-core = "*"
axum_session = "*"
bytes = "1"
chrono = "0.4"
futures = "0.3"
http = "*"
http-body = "*"
tower-layer = "0.3"
tower-service = "0.3"
