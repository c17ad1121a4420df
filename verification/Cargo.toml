[package]
name = "meeting_desk"
version = "0.1.0"
edition = "2021"
publish = false

[dependencies]
chrono = "=0.4.45"
sha2 = "=0.10.9"
hex = "=0.4.3"
reqwest = { version = "=0.12.28", default-features = false, features = ["json", "multipart", "stream"] }
serde = { version = "=1.0.229", features = ["derive"] }
serde_json = "=1.0.154"
thiserror = "=2.0.21"
base64 = "=0.22.1"
uuid = { version = "=1.29.0", features = ["v4"] }
regex = "=1.13.1"
tokio = { version = "1", features = ["rt", "macros", "time", "sync", "fs", "io-util", "process"] }
docx-rs = { version = "0.4", default-features = false }
genpdf = "0.2"
tempfile = "3"
