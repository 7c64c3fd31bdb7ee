[package]
name = "fuwane"
version = "0.1.0"
edition = "2021"
publish = false

[dependencies]
anyhow = "1"
bitflags = "2"
serde = { version = "1", features = ["derive"] }
serde_json = "1"
songbird = { version = "0.3", default-features = false, features = ["driver", "rustls"] }
tokio = { version = "1", features = ["sync", "rt", "macros"] }
