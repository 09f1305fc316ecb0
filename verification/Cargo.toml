[package]
name = "wexif"
version = "0.1.0"
edition = "2021"
publish = false

[dependencies]
kamadak-exif = "0.6"
anyhow = "1"
clap = { version = "4", features = ["derive"] }
image = { version = "0.25", default-features = false, features = ["jpeg", "png"] }
serde = { version = "1", features = ["derive"] }
serde_json = "1"
tokio = { version = "1", features = ["rt-multi-thread", "macros", "io-std", "io-util"] }
