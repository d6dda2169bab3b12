[package]
name = "movie_night"
version = "0.1.0"
edition = "2021"
publish = false

[dependencies]
serde = { version = "*", features = ["derive"] }
serde_json = "*"
time = "*"
tokio = { version = "*", features = ["rt-multi-thread", "macros", "net"] }
axum = "*"
reqwest = { version = "*", default-features = false, features = ["rustls-tls"] }
