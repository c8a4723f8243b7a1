[package]
name = "posts_api"
version = "0.1.0"
edition = "2021"
publish = false

[dependencies]
mime = "=0.3.17"
serde = "=1.0.229"
serde_derive = "=1.0.229"
serde_json = "=1.0.154"
tokio = { version = "=1.54.1", features = ["macros", "rt-multi-thread"] }
tokio-postgres = "=0.7.18"
warp = { version = "=0.3.7", default-features = false }
