[package]
name = "sm2_envelope"
version = "0.1.0"
edition = "2021"
publish = false

[dependencies]
hex = "=0.4.3"
libsm = "=0.4.1"
serde = "=1.0.229"
serde_derive = "=1.0.229"
actix = "=0.13.5"
actix-web = "=4.15.0"
clap = "=4.6.7"
env_logger = "=0.11.11"
