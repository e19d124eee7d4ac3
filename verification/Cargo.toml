[package]
name = "moth"
version = "0.1.0"
edition = "2021"
publish = false

[dependencies]
dashmap = "=6.2.1"
emojis = "=0.6.4"
parking_lot = "=0.12.5"
rand = "=0.9.5"
regex = "=1.13.1"
serenity = { version = "=0.12.5", default-features = false, features = ["cache", "client", "gateway", "model", "rustls_backend"] }
sqlx = { version = "=0.8.6", default-features = false, features = ["postgres", "runtime-tokio"] }
unicode-segmentation = "1"
tokio = { version = "=1.54.1", features = ["macros", "rt-multi-thread"] }
