[package]
name = "soomfon"
version = "0.1.0"
edition = "2021"
publish = false

[dependencies]
mirajazz = "*"
evdev = "*"
font8x8 = "*"
image = { version = "*", default-features = false }
directories = "*"
serde = { version = "*", features = ["derive"] }
serde_json = "*"
thiserror = "*"
tokio = { version = "*", features = ["sync", "time", "rt", "macros"] }
