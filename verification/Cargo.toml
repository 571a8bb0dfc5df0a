[package]
name = "fileslink"
version = "0.1.0"
edition = "2021"
rust-version = "1.95"
publish = false

[dependencies]
axum = "=0.7.9"
http = "1"
log = "0.4"
mime_guess = "=2.0.5"
nanoid = "=0.4.0"
reqwest = { version = "=0.11.27", default-features = false, features = ["stream", "rustls-tls"] }
serde = { version = "1", features = ["derive"] }
serde_json = "1"
# teloxide pulls this in; later releases need a newer compiler.
takecell = "=0.1.1"
teloxide = { version = "=0.13.0", default-features = false, features = ["rustls"] }
tokio = { version = "1", features = ["sync", "time", "fs", "rt"] }
uuid = { version = "=1.29.0", features = ["v4"] }
