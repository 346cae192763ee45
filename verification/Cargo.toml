[package]
name = "flashdb_rs"
version = "0.1.0"
edition = "2021"
publish = false

[dependencies]
lru = { version = "=0.12.5", default-features = false }
embedded-io = { version = "=0.6.1", features = ["std"] }
embedded-storage = "=0.3.2"
log = "=0.4.34"
thiserror = "=1.0.69"
