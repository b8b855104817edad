[package]
name = "milieu"
version = "0.1.0"
edition = "2021"
publish = false

[dependencies]
argon2 = "0.5"
atty = "0.2"
base64 = "0.22"
bip39 = "2"
blake3 = "1"
chacha20poly1305 = "0.10"
chrono = "0.4"
clap = { version = "4", features = ["derive"] }
hkdf = "0.12"
hostname = "0.4"
keyring = "2"
rand_core = { version = "0.6", features = ["getrandom"] }
reqwest = { version = "0.12", default-features = false, features = ["json", "rustls-tls"] }
rpassword = "7"
serde = { version = "1", features = ["derive"] }
serde_json = "1"
sha2 = "0.10"
similar = "2"
thiserror = "1"
tokio = { version = "1", features = ["macros", "rt"] }
toml = "0.8"
tracing = "0.1"
tracing-subscriber = { version = "0.3", features = ["env-filter"] }
urlencoding = "2"
x25519-dalek = { version = "2", features = ["static_secrets"] }
