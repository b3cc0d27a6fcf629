[package]
name = "nickel_jwt_session"
version = "0.1.0"
edition = "2021"
publish = false

[dependencies]
cookie = "=0.18.2"
hyper = "=0.10.16"
jwt = "=0.16.0"
log = "=0.4.34"
nickel = "=0.11.0"
plugin = "=0.2.6"
rust-crypto = "=0.2.36"
serde_json = "=1.0.154"
typemap = "=0.3.3"

[dev-dependencies]
base64 = "=0.13.1"
hmac = "=0.12.1"
sha2 = "=0.10.9"
