[package]
name = "rxtd"
version = "0.1.0"
edition = "2021"
publish = false

[dependencies]
anyhow = "=1.0.104"
colored = "=3.1.1"
dunce = "=1.0.5"
inquire = "=0.9.4"
quick-xml = { version = "=0.42.0", features = ["serialize"] }
serde = { version = "=1.0.229", features = ["derive"] }
symphonia = { version = "=0.5.5", features = ["all"] }
toml = "=1.2.1"
