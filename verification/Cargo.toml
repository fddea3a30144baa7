[package]
name = "annotation_store"
version = "0.1.0"
edition = "2021"
publish = false

[dependencies]
actix-cors = "0.6"
actix-files = "0.6"
actix-multipart = "0.6"
actix-web = "4"
base64 = "0.21"
chrono = "0.4"
dotenv = "0.15"
env_logger = "0.10"
futures-util = "0.3"
reqwest = { version = "0.11", features = ["json"] }
serde = { version = "1", features = ["derive"] }
serde_json = "1"
uuid = { version = "1", features = ["v4"] }
