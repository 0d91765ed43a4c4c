[package]
name = "bouncer"
version = "0.1.0"
edition = "2021"
publish = false

[dependencies]
url = "=2.5.8"
jsonwebtoken = { version = "=11.1.0", features = ["rust_crypto"] }
serde_json = "=1.0.151"
serde = { version = "=1.0.229", features = ["derive"] }
rmp-serde = "=1.3.1"
tokio = { version = "=1.53.2", features = ["full"] }
axum = "=0.8.9"
deadpool-redis = "=0.23.1"
reqwest = { version = "=0.13.5", default-features = false, features = ["json"] }
anyhow = "=1.0.104"
async-trait = "=0.1.92"
envy = "=0.4.2"
