[package]
name = "hello_api"
version = "0.1.0"
edition = "2021"
publish = false

[dependencies]
rocket = { version = "0.5", features = ["json"] }
serde = { version = "=1.0.229", features = ["derive"] }
serde_json = "=1.0.151"
utoipa = "=6.0.0"
utoipa-swagger-ui = { version = "=10.0.1", features = ["vendored"] }
