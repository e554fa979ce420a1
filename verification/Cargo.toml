[package]
name = "tpm2_luks"
version = "0.1.0"
edition = "2021"
publish = false

[dependencies]
argon2 = "0.5"
base64 = "0.22"
hmac = "0.12"
sha2 = "0.10"
serde_json = "1"
rpassword = "7"
tss-esapi = "7"
libcryptsetup-rs = "*"
