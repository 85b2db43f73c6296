[package]
name = "hexagram"
version = "0.1.0"
edition = "2021"
publish = false

[dependencies]
sha2 = "0.10"
rand = "0.8"
rand_chacha = "0.3"
chrono = "0.4"
serde = { version = "1", features = ["derive"] }
axum = "0.6"
tokio = { version = "1", features = ["macros", "rt-multi-thread"] }

[dev-dependencies]
