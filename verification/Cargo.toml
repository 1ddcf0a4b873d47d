[package]
name = "altpay"
version = "0.1.0"
edition = "2021"
publish = false

[dependencies]
bitcoin = "=0.29.2"
bitcoin_hashes = "=0.11.0"
chrono = "=0.4.45"
cln-plugin = "=0.1.2"
cln-rpc = "=0.1.2"
config = "0.13"
lightning = "=0.0.113"
lightning-invoice = "=0.21.0"
lightning-rapid-gossip-sync = "0.0.113"
log = "0.4"
rand = "=0.8.8"
rand_core = { version = "0.6", features = ["getrandom"] }
reqwest = { version = "0.11", default-features = false, features = ["rustls-tls"] }
serde = { version = "1", features = ["derive"] }
serde_json = "=1.0.154"
tokio = { version = "1", features = ["full"] }
tokio-util = "0.7"
