[package]
name = "txn_retry"
version = "0.1.0"
edition = "2021"
publish = false

[dependencies]
postgres = { version = "=0.19.14", features = ["with-uuid-1"] }
openssl = "=0.10.81"
postgres-openssl = "=0.5.3"
uuid = "=1.27.0"
