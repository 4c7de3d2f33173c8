[package]
name = "blast_scheduler"
version = "0.1.0"
edition = "2021"
publish = false

[dependencies]
tokio = { version = "1", features = ["full"] }
async-trait = "0.1"
axum = "0.7"
serde = { version = "1", features = ["derive"] }
