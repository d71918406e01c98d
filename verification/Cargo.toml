[package]
name = "rairstream"
version = "0.1.0"
edition = "2021"
publish = false

[dependencies]
aes = "0.8"
aes-gcm = "0.10"
base64ct = { version = "1", features = ["alloc"] }
chacha20poly1305 = "0.10"
ctr = "0.9"
ed25519-dalek = "2"
hex = "0.4"
hkdf = "0.12"
plist = "1"
rand_core = { version = "0.6", features = ["getrandom"] }
sha1 = "0.10"
sha2 = "0.10"
srp = "*"
x25519-dalek = "2"
