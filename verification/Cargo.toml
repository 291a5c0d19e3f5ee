[package]
name = "time_decay_consensus"
version = "0.1.0"
edition = "2021"
publish = false

[dependencies]
chrono = { version = "0.4", default-features = false, features = ["std", "clock"] }
clap = { version = "4", features = ["derive"] }
rust_decimal = { version = "1", default-features = false, features = ["std"] }
