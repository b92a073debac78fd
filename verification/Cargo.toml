[package]
name = "l402_gateway"
version = "0.1.0"
edition = "2021"
publish = false

[dependencies]
macaroon = "=0.3.0"
sha2 = "=0.10.9"
lightning-invoice = "=0.24.0"
moksha-core = "=0.1.2"
base64-url = "=2.0.2"
serde = { version = "=1.0.229", features = ["derive"] }
serde_json = "=1.0.151"
axum = "=0.6.20"
tokio = { version = "=1.53.2", features = ["macros", "rt-multi-thread"] }
reqwest = { version = "=0.11.27", default-features = false, features = ["json", "rustls-tls"] }
reverse-proxy-service = { version = "=0.2.1", features = ["axum", "rustls"] }
tower-http = { version = "=0.4.4", features = ["cors", "fs"] }
http = "=0.2.12"

[dev-dependencies]
hex = "=0.4.3"
