[package]
name = "page"
version = "0.1.0"
edition = "2021"
publish = false

[dependencies]
candid = "=0.10.39"
chrono = { version = "=0.4.45", default-features = false, features = ["clock", "std", "wasmbind"] }
serde = { version = "=1.0.229", features = ["derive"] }
