[package]
name = "short_url"
version = "0.1.0"
edition = "2021"
publish = false

[dependencies]
uuid = { version = "*", features = ["v4"] }
axum = "*"
tokio = { version = "*", features = ["macros", "rt-multi-thread", "net"] }
serde = { version = "*", features = ["derive"] }
serde_json = "*"
http = "*"
reqwest = { version = "*", default-features = false }
tower-http = { version = "*", features = ["trace"] }
tracing = "*"
tracing-subscriber = "*"
dotenv = "*"
