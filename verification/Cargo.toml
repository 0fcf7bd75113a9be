[package]
name = "limitation"
version = "0.1.1"
edition = "2021"
publish = false

[dependencies]
actix-http = { version = "0.2", default-features = false, features = ["flate2-rust"] }
actix-rt = "0.2"
actix-web = { version = "1.0", default-features = false, features = ["client", "flate2-rust"] }
chrono = "=0.4.9"
env_logger = "0.7"
futures = "0.1"
log = "0.4"
redis = "0.13"
structopt = "0.3"
time = "0.1"
tokio = "0.1"
typed-builder = "0.3"
url = "2.1"
