[package]
name = "tts_chat"
version = "0.1.0"
edition = "2021"
rust-version = "1.95"
publish = false

[dependencies]
base64 = "=0.22.1"
serde = { version = "=1.0.229", features = ["derive"] }
serde_json = "=1.0.154"
reqwest = { version = "=0.12.28", default-features = false, features = ["json", "rustls-tls"] }
teloxide = { version = "=0.17.0", default-features = false, features = ["macros", "ctrlc_handler", "rustls"] }
takecell = "=0.1.1"
actix-rt = "=2.15.0"
anyhow = "=1.0.104"
bytes = "=1.12.1"
envy = "=0.4.2"
