[package]
name = "ehparse"
version = "0.1.0"
edition = "2021"
publish = false

[dependencies]
visdom = "=1.0.4"
serde_json = "=1.0.151"
serde = { version = "=1.0.229", features = ["derive"] }
reqwest = { version = "=0.13.5", default-features = false, features = ["cookies", "form"] }
tokio = { version = "=1.53.2", features = ["rt", "macros"] }
