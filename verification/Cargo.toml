[package]
name = "apicheck"
version = "0.1.0"
edition = "2021"
publish = false

[dependencies]
actix-web = { version = "=3.3.3", default-features = false }
ansi_term = "=0.12.1"
jsonpath_lib = "=0.3.0"
serde = { version = "=1.0.229", features = ["derive"] }
serde_json = "=1.0.154"
