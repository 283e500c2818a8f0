[package]
name = "mixxc"
version = "0.1.0"
edition = "2021"
publish = false

[dependencies]
smallvec = "*"
libpulse-binding = "*"
tokio = { version = "*", default-features = false, features = ["sync", "time", "signal", "rt", "macros"] }
parking_lot = "*"
argh = "*"
thiserror = "*"
