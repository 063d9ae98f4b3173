[package]
name = "clipboardpro"
version = "0.1.0"
edition = "2021"
publish = false

[dependencies]
chrono = "0.4"
base64 = "0.22"
rand = "0.8"
sys-info = "0.9"
serde = { version = "1", features = ["derive"] }
serde_json = "1"
once_cell = "1"
arboard = { version = "3", default-features = false }
dirs-next = "2"
dotenv = "0.15"
keyring = "3"
uuid = { version = "1", features = ["v4"] }
webbrowser = "1"
oauth2 = "4"
reqwest = { version = "0.11", default-features = false, features = ["rustls-tls", "json"] }
actix-web = "4"
tokio = { version = "1", features = ["full"] }
