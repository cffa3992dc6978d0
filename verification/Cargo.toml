[package]
name = "plotfed"
version = "0.1.0"
edition = "2021"
publish = false

[dependencies]
ascii_domain = "=0.6.0"
base64 = "=0.22.1"
chrono = "=0.4.45"
ed25519-dalek = "=2.2.0"
sha2 = "=0.10.9"
hmac = "=0.12.1"
jwt = "=0.16.0"
uuid = { version = "=1.29.0", features = ["v4", "serde"] }
rand = "=0.9.5"
serde = { version = "=1.0.229", features = ["derive"] }
serde_json = "=1.0.154"
tokio = { version = "=1.54.1", features = ["macros", "rt-multi-thread"] }
redis = { version = "=1.8.0", features = ["tokio-comp"] }
sqlx = { version = "=0.8.6", default-features = false, features = ["postgres", "runtime-tokio", "uuid"] }
reqwest = { version = "=0.12.28", default-features = false, features = ["rustls-tls"] }
poem = "=3.1.12"
poem-openapi = { version = "=5.1.16", features = ["swagger-ui", "uuid"] }
tracing = "=0.1.44"
tracing-subscriber = "=0.3.23"
envy = "=0.4.2"
dotenvy = "=0.15.7"
