[package]
name = "delta_sharing"
version = "0.1.0"
edition = "2021"
publish = false

[dependencies]
chrono = "=0.4.45"
hmac = "=0.12.1"
jsonwebtoken = "=8.3.0"
rusoto_core = { version = "=0.48.0", default-features = false, features = ["rustls"] }
rusoto_credential = "=0.48.0"
rusoto_s3 = { version = "=0.48.0", default-features = false, features = ["rustls"] }
serde = { version = "=1.0.229", features = ["derive"] }
sha2 = "=0.10.9"
tame-gcs = { version = "=0.12.4", features = ["signing"] }
url = "=2.5.8"
uuid = { version = "=1.27.0", features = ["v4"] }
validator = "=0.16.1"
