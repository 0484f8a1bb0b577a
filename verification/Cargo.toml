[package]
name = "spotify_cli"
version = "0.1.0"
edition = "2021"
publish = false

[dependencies]
anyhow = "1"
base64 = "0.22"
dirs = "5"
keyring = { version = "3", features = ["linux-native"] }
rand = "0.8"
reqwest = { version = "0.12", default-features = false, features = ["blocking", "json", "rustls-tls"] }
serde = { version = "1", features = ["derive"] }
serde_json = "1"
sha2 = "0.10"
thiserror = "1"
tiny_http = "0.12"
tokio = { version = "1", features = ["full"] }
toml = "0.8"
tracing = "0.1"
url = "2"
urlencoding = "2"
