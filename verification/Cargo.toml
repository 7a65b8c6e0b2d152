[package]
name = "emm_server"
version = "0.1.0"
edition = "2021"
publish = false

[dependencies]
argon2 = "0.5"
chrono = { version = "0.4", features = ["serde"] }
hex = "0.4"
rand_core = { version = "0.6", features = ["getrandom"] }
sha2 = "0.10"
unicode-normalization = "0.1"
rusqlite = { version = "0.32", features = ["bundled"] }
axum = "0.8"
tokio = { version = "1", features = ["rt-multi-thread", "macros", "net"] }
tower-http = { version = "0.6", features = ["cors"] }
serde = { version = "1", features = ["derive"] }
