[package]
name = "web_content_extract"
version = "0.1.0"
edition = "2021"
publish = false

[dependencies]
anyhow = "1"
base64 = "0.22"
chrono = "0.4"
clap = { version = "4", features = ["derive"] }
directories = "*"
htmd = "*"
playwright = "*"
prost = "0.13"
regex = "1"
reqwest = { version = "0.12", default-features = false, features = ["json", "rustls-tls"] }
rusqlite = { version = "*", features = ["bundled"] }
serde_json = "1"
tokio = { version = "1", features = ["full"] }
tonic = "0.12"
