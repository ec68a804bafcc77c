[package]
name = "xocsp"
version = "0.1.0"
edition = "2021"
publish = false

[dependencies]
actix-governor = "*"
actix-web = "4"
anyhow = "1"
bytes = "1"
der = { version = "0.7", features = ["pem", "std"] }
flate2 = "1"
hex = "0.4"
httpdate = "1"
moka = { version = "0.12", features = ["sync"] }
openssl = "0.10"
ron = "*"
serde = { version = "1", features = ["derive"] }
sqlx = { version = "0.8", default-features = false, features = ["sqlite", "runtime-tokio"] }
tokio = { version = "1", features = ["time", "sync"] }
x509-cert = { version = "0.2", features = ["pem", "std"] }
