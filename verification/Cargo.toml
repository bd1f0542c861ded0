[package]
name = "underwriting_core"
version = "0.1.0"
edition = "2021"
publish = false

[dependencies]
regex = "=1.13.1"
uuid = { version = "=1.29.0", features = ["v4"] }
serde = { version = "=1.0.229", features = ["derive"] }
serde_json = "=1.0.154"
chrono = { version = "=0.4.45", features = ["serde"] }
tokio = { version = "=1.54.1", features = ["sync", "rt", "macros", "time"] }
actix-web = { version = "=4.18.1", default-features = false, features = ["macros"] }
actix-multipart = "=0.8.5"
async-openai = { version = "=0.42.2", features = ["chat-completion", "embedding"] }
deadpool-postgres = { version = "=0.14.2", features = ["with-chrono-0_4", "with-serde_json-1"] }
qdrant-client = "=1.20.0"
reqwest = { version = "=0.13.5", default-features = false, features = ["json", "rustls"] }
utoipa = { version = "=6.0.0", features = ["chrono"] }
