[package]
name = "lrnscraper"
version = "0.6.0"
edition = "2021"
publish = false

[dependencies]
tl = "=0.7.8"
csv = "=1.4.0"
serde = { version = "=1.0.229", features = ["derive"] }
serde_json = "=1.0.154"
anyhow = "=1.0.104"
colored = "=2.2.0"
inquire = "=0.7.5"
num_cpus = "=1.17.0"
headless_chrome = "=1.0.22"
