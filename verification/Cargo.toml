[package]
name = "pluslife_notifier"
version = "0.1.0"
edition = "2021"
publish = false

[dependencies]
askama = "*"
axum = { version = "0.8", features = ["ws"] }
base64 = "0.22"
dotenv = "0.15"
duration-str = "*"
email_address = "0.2"
jiff = { version = "*", features = ["serde"] }
mime = "0.3"
plotters = "0.3"
png = "*"
reqwest = { version = "*", features = ["json", "multipart"] }
serde = { version = "1", features = ["derive"] }
serde_json = "1"
tokio = { version = "1", features = ["full"] }
tower-http = { version = "*", features = ["cors"] }
tracing = "0.1"
tracing-subscriber = "0.3"
uuid = { version = "1", features = ["v4", "serde"] }
