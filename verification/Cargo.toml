[package]
name = "kmr_keyblob"
version = "0.1.0"
edition = "2021"
publish = false

[dependencies]
coset = "=0.3.8"
ciborium = "=0.2.2"
log = "0.4"
anyhow = "1"
libc = "0.2"
android_logger = "0.15"
multi_log = "0.1"

[dev-dependencies]
hmac = "=0.12.1"
sha2 = "=0.10.9"
aes-gcm = "=0.10.3"
aes = "=0.8.4"
cmac = "=0.7.2"
