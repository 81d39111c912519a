[package]
name = "pqxdh_protocol"
version = "0.1.0"
edition = "2021"
publish = false

[dependencies]
hex = "=0.4.3"
hkdf = "=0.12.4"
sha2 = "=0.10.9"
hqc-kem = "=0.1.0-rc.0"
libcrux-ml-dsa = "=0.0.8"
libcrux-ml-kem = "0.0"
prost = "=0.13.5"
rand = "=0.9.5"
subtle = "=2.6.1"
x25519-dalek = { version = "=2.0.1", features = ["static_secrets"] }
