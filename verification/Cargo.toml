[package]
name = "cf_ddns"
version = "0.1.0"
edition = "2021"
publish = false

[dependencies]
serde_json = "1"
reqwest = { version = "0.12", default-features = false, features = ["blocking", "json", "rustls-tls"] }
log = "0.4"
log4rs = "1"
dotenv = "0.15"
