[package]
name = "sampling_approval"
version = "0.1.0"
edition = "2021"
publish = false

[dependencies]
axum = "*"
rmcp = "*"
serde = { version = "*", features = ["derive"] }
serde_json = "*"
utoipa = "*"
