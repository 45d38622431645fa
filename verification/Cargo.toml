[package]
name = "statick_pack"
version = "0.1.0"
edition = "2021"
publish = false

[dependencies]
artushak-web-assets = "=0.2.4"
rsass = "=0.29.2"
tera = { version = "=1.20.1", default-features = false }
serde = { version = "=1.0.229", features = ["derive"] }
serde_json = "=1.0.154"
clap = { version = "=4.6.7", features = ["derive"] }
