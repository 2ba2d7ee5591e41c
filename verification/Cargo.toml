[package]
name = "cryptopia_lib"
version = "0.1.0"
edition = "2021"
publish = false

[dependencies]
bson = "2"
pem = "3"
secrecy = "0.8"
zeroize = "1"
getrandom = "0.2"
hkdf = "0.12"
sha2 = "0.10"
ed25519-compact = { version = "2", features = ["x25519"] }
fips203 = "*"
fips204 = "*"
argon2 = "0.5"
chacha20poly1305 = "0.10"
