[package]
name = "roslibrust"
version = "0.1.0"
edition = "2021"
publish = false

[dependencies]
chrono = { version = "0.4", default-features = false, features = ["std", "now"] }
futures = "0.3"
serde = { version = "1", features = ["derive"] }
simple-error = "0.3"

[dev-dependencies]
tokio = { version = "1", features = ["time"] }
