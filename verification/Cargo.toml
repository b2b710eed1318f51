[package]
name = "fluent_serde"
version = "0.1.0"
edition = "2021"
publish = false

[dependencies]
fluent = "0.16"
serde = "1"
thiserror = "1"
