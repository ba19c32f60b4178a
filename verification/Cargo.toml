[package]
name = "adatari_ip"
version = "0.1.0"
edition = "2021"
publish = false

[dependencies]
axum = "=0.8.9"
public-ip-address = "=0.4.0"
reqwest = { version = "=0.13.5", default-features = false, features = ["json"] }
serde = { version = "*", features = ["derive"] }
serde_json = "=1.0.151"
tokio = { version = "*", features = ["macros", "rt-multi-thread", "signal", "net"] }
tracing = "*"
tracing-subscriber = "*"
utoipa = "=6.0.0"
utoipa-swagger-ui = { version = "=10.0.1", features = ["axum", "vendored"] }
uuid = { version = "=1.27.0", features = ["v4"] }
