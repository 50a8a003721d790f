[package]
name = "jiosaavn_api"
version = "0.1.0"
edition = "2021"
publish = false

[dependencies]
axum = "=0.7.9"
base64 = "=0.22.1"
cipher = "=0.4.4"
des = "=0.8.1"
rand = "=0.8.8"
regex = "=1.13.1"
reqwest = { version = "=0.12.28", default-features = false, features = ["json", "rustls-tls"] }
serde = { version = "=1.0.229", features = ["derive"] }
serde_json = "=1.0.154"
tokio = { version = "=1.54.1", features = ["full"] }
tower-http = { version = "=0.5.2", features = ["cors"] }
tracing = "=0.1.44"
tracing-subscriber = { version = "=0.3.23", features = ["env-filter"] }
urlencoding = "=2.1.3"
utoipa = { version = "=5.5.0", features = ["axum_extras"] }
utoipa-swagger-ui = { version = "=8.1.0", features = ["axum", "vendored"] }
zip = { version = "=2.2.2", default-features = false, features = ["deflate"] }
