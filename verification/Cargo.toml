[package]
name = "tpm2-rs"
version = "0.1.0"
edition = "2021"
publish = false

[dependencies]
sha2 = "0.10"
hmac = "0.12"
aes = "0.8"
rand = "0.8"
rsa = "0.9"
zeroize = "1"
thiserror = "2"
tracing = "0.1"
base64 = "0.22"
directories = "5"
rusqlite = { version = "0.32", features = ["bundled"] }
windows-sys = { version = "0.59", features = ["Win32_Foundation", "Win32_System_TpmBaseServices"] }
