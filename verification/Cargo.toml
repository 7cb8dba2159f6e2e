[package]
name = "libsql_shell"
version = "0.1.0"
edition = "2021"
publish = false

[dependencies]
anyhow = "1"
color-eyre = "0.6"
dashmap = "6"
dialoguer = "0.11"
dirs = "5"
dotenv = "0.15"
futures = "0.3"
libsql = { version = "0.6", default-features = false, features = ["remote", "tls"] }
ratatui = "0.29"
serde = { version = "1", features = ["derive"] }
serde_json = "1"
tokio = { version = "1", features = ["rt-multi-thread", "macros", "net", "sync"] }
tokio-tungstenite = { version = "0.24", features = ["rustls-tls-webpki-roots"] }
tungstenite = "0.24"
unicode-width = "0.2"
