[package]
name = "sr25519_bizinikiwi"
version = "0.1.0"
edition = "2021"
publish = false

[dependencies]
schnorrkel = "0.11"
jni = "0.21"
