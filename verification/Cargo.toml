[package]
name = "x_proxy_pool"
version = "0.1.0"
edition = "2021"
publish = false

[dependencies]
httparse = "*"
tokio = { version = "*", features = ["full"] }
reqwest = { version = "*", default-features = false }
serde = { version = "*", features = ["derive"] }
toml = "*"
tracing = "*"
tracing-subscriber = "*"
anyhow = "*"
indicatif = "*"
