[package]
name = "vcard_dispatch"
version = "0.1.0"
edition = "2021"
publish = false

[dependencies]
dotenv = "=0.15.0"
env_logger = "=0.11.11"
infobip_sdk = "=0.5.2"
log = "=0.4.34"
serde = { version = "=1.0.229", features = ["derive"] }
tokio = { version = "=1.54.1", features = ["macros", "rt-multi-thread", "sync", "time"] }
warp = "=0.3.7"
