[package]
name = "calgary_central_library"
version = "0.1.0"
edition = "2021"
publish = false

[dependencies]
arcstr = "1"
axum = "0.7"
chrono = { version = "0.4", features = ["serde"] }
fantoccini = "*"
regex = "1"
serde = { version = "1", features = ["derive"] }
serde_json = "1"
thiserror = "1"
tokio = { version = "1", features = ["macros", "net", "rt-multi-thread"] }
