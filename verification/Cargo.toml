[package]
name = "build_lifecycle"
version = "0.1.0"
edition = "2021"
publish = false

[dependencies]
actix = "0.13"
diesel = { version = "1.4", features = ["postgres", "r2d2"] }
serde = { version = "1", features = ["derive"] }
serde_json = "1"
