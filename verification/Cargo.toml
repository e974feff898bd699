[package]
name = "loco_openapi"
version = "0.1.0"
edition = "2021"
publish = false

[dependencies]
utoipa = { version = "=5.5.0", features = ["yaml"] }
axum = { version = "=0.8.9" }
loco-rs = { version = "=0.16.4", default-features = false }
utoipa-axum = { version = "=0.2.0" }
serde = { version = "=1.0.229", features = ["derive"] }
serde_json = { version = "=1.0.154" }
utoipa-redoc = { version = "6", features = ["axum"] }
utoipa-scalar = { version = "0.3", features = ["axum"] }
utoipa-swagger-ui = { version = "9", features = ["axum", "vendored"] }

[dev-dependencies]
serde_yaml = "=0.9.34"
