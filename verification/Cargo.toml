[package]
name = "core_foundation_utils"
version = "0.1.0"
edition = "2021"
publish = false

[dependencies]
core-foundation = "*"
core-foundation-sys = "*"
thiserror = "*"
chrono = "*"
plist = "*"
serde = { version = "*", features = ["derive"] }
