[package]
name = "oidc_rp"
version = "0.1.0"
edition = "2021"
publish = false

[dependencies]
openidconnect = "3"
axum = "0.6"
axum-sessions = "0.5"
tokio = { version = "1", features = ["full"] }
serde = { version = "1", features = ["derive"] }
figment = { version = "0.10", features = ["toml", "env"] }
