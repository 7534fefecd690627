[package]
name = "kanime"
version = "0.1.0"
edition = "2021"
publish = false

[dependencies]
actix-easy-multipart = "3"
actix-web = "4"
anyhow = "1"
chrono = "0.4"
color-thief = "0.2"
env_logger = "0.10"
fast-blurhash = "1"
futures = "0.3"
gethostname = "0.4"
log = "0.4"
meilisearch-sdk = "0.22"
mongodb = "2"
random-string = "1"
redis = { version = "0.22", features = ["tokio-comp"] }
ril = { version = "0.9", features = ["webp", "png", "resize", "text", "static"] }
serde = { version = "1", features = ["derive"] }
serde_json = "1"
toml = "0.7"
url-escape = "0.1"
