[package]
name = "ytplayer"
version = "0.1.0"
edition = "2021"
publish = false

[dependencies]
rand = "=0.8.8"
tokio = { version = "=1.54.1", features = ["sync", "rt-multi-thread", "macros", "time", "process"] }
symphonia = { version = "=0.5.5", features = ["all"] }
rodio = { version = "=0.19.0", default-features = false }
reqwest = { version = "=0.12.28", default-features = false, features = ["blocking", "rustls-tls"] }
serde = { version = "1", features = ["derive"] }
