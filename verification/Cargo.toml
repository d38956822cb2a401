[package]
name = "interprep"
version = "0.1.0"
edition = "2021"
publish = false

[dependencies]
anyhow = "=1.0.104"
base64 = "=0.22.1"
clap = { version = "=4.6.7", features = ["derive"] }
ctrlc = "=3.5.2"
dirs = "=5.0.1"
getrandom = "=0.2.17"
hound = "=3.5.1"
keyring = { version = "=3.6.3", default-features = false, features = ["windows-native"] }
open = "=5.4.5"
opener = "=0.7.2"
pdf-extract = "=0.7.12"
reqwest = { version = "=0.12.28", default-features = false, features = ["blocking", "json"] }
serde = { version = "=1.0.229", features = ["derive"] }
serde_json = "=1.0.154"
zip = { version = "=2.6.1", default-features = false, features = ["deflate"] }
