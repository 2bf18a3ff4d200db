[package]
name = "kit"
version = "0.1.0"
edition = "2021"
publish = false

[dependencies]
anyhow = "=1.0.104"
colored = "=2.2.0"
dirs = "=7.0.0"
dotenv = "=0.15.0"
inquire = "=0.9.4"
log = "=0.4.34"
open = "=5.4.4"
reqwest = { version = "=0.13.5", default-features = false, features = ["blocking", "json", "form"] }
serde = { version = "=1.0.229", features = ["derive"] }
serde_json = "=1.0.151"
spinoff = "=0.8.0"
