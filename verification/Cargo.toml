[package]
name = "unidb"
version = "0.1.0"
edition = "2021"
publish = false

[dependencies]
uuid = { version = "=1.29.0", features = ["v4"] }
rusqlite = { version = "=0.40.2", features = ["bundled"] }
mysql = { version = "=28.0.4", default-features = false, features = ["minimal"] }
tokio-postgres = "=0.7.18"
tokio = { version = "=1.54.1", features = ["rt", "rt-multi-thread"] }
serde = { version = "=1.0.229", features = ["derive"] }
log = "=0.4.34"
tokio-postgres-rustls = "*"
rustls = "*"
webpki-roots = "*"
