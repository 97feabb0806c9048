[package]
name = "ctap_hmac"
version = "0.1.0"
edition = "2021"
publish = false

[dependencies]
ring = "0.17"
rust-crypto = "0.2"
untrusted = "0.9"
cbor-codec = "0.7"
failure = "0.1"
