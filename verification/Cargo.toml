[package]
name = "rweather-decoder"
version = "0.3.0"
edition = "2021"
publish = false

[dependencies]
anyhow = "=1.0.104"
chrono = { version = "=0.4.45", default-features = false, features = ["std"] }
chronoutil = "=0.2.7"
encoding_rs = "=0.8.42"
encoding_rs_io = "=0.1.8"
env_logger = "=0.10.2"
glob = "=0.3.4"
log = "=0.4.34"
serde = { version = "=1.0.229", features = ["derive"] }
serde_json = "=1.0.154"
structopt = "=0.3.26"

[dev-dependencies]
regex = "=1.13.1"
