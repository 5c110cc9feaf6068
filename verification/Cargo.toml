[package]
name = "dropbox_pkce"
version = "0.1.0"
edition = "2021"
publish = false

[dependencies]
rand = "0.8"
hex = "0.4"
sha2 = "0.10"
base64 = "0.22"
urlencoding = "2"
serde_json = "1"
reqwest = { version = "0.12", default-features = false, features = ["blocking", "rustls-tls"] }
dirs = "5"
walkdir = "2"
