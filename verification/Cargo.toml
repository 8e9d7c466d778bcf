[package]
name = "tokimo_app_image_cortex"
version = "0.1.0"
edition = "2021"
publish = false

[dependencies]
kamadak-exif = "*"
sea-orm = { version = "*", default-features = false }
serde = { version = "1", features = ["derive"] }
serde_json = "1"
axum = "*"
tokio = { version = "1", features = ["full"] }
reqwest = { version = "*", default-features = false, features = ["json"] }
anyhow = "1"
clap = { version = "4", features = ["derive"] }
tracing = "*"
tracing-subscriber = { version = "*", features = ["env-filter"] }
uuid = "*"
ts-rs = "*"
