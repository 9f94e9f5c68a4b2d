[package]
name = "optd-cost-model"
version = "0.1.0"
edition = "2021"
publish = false

[dependencies]
arrow-schema = "=60.1.0"
chrono = "=0.4.45"
serde = { version = "=1.0.229", features = ["derive", "rc"] }
ordered-float = "=5.5.1"
itertools = "=0.15.0"
