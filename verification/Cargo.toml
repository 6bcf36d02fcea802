[package]
name = "ip_tracker"
version = "0.1.0"
edition = "2021"
publish = false

[dependencies]
blake2 = "=0.10.6"
hex = "=0.4.3"
rand = "=0.8.8"
tokio = { version = "=1.54.1", features = ["full"] }
redis = { version = "=0.23.5", features = ["tokio-comp"] }
teloxide = { version = "=0.12.2", default-features = false, features = ["macros", "ctrlc_handler", "rustls"] }
dptree = "=0.3.0"
warp = "=0.3.7"
log = "=0.4.34"
env_logger = "=0.10.2"
takecell = "=0.1.1"
