[package]
name = "booking"
version = "0.1.0"
edition = "2021"
publish = false

[dependencies]
aide = { version = "=0.12.0", features = ["axum", "macros"] }
axum = { version = "=0.6.20", features = ["json", "macros"] }
chrono = { version = "=0.4.45", default-features = false, features = ["std"] }
schemars = { version = "=0.8.22", features = ["derive", "uuid1"] }
serde = { version = "=1.0.229", features = ["derive"] }
tracing = "=0.1.44"
uuid = { version = "=1.29.0", default-features = false, features = ["std", "serde"] }
