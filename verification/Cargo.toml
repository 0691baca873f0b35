[package]
name = "takos_encrypt_ink"
version = "0.1.0"
edition = "2021"
publish = false

[dependencies]
ml-kem = "=0.2.3"
ml-dsa = "=0.0.4"
aes-gcm = "=0.10.3"
base64 = "=0.22.1"
sha2 = "=0.10.9"
rand = "=0.8.8"
chrono = "=0.4.45"

[dev-dependencies]
serde_json = "1"
