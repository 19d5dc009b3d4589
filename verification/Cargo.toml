[package]
name = "noiseless_tracing"
version = "0.1.0"
edition = "2021"
publish = false

[dependencies]
tracing = "0.1"
actix-web = { version = "4", default-features = false }
tracing-actix-web = "0.7"
