[package]
name = "libxinux"
version = "0.1.0"
edition = "2021"
publish = false

[dependencies]
url = "*"
fuzzy-matcher = "*"
chrono = { version = "*", features = ["serde"] }
serde = { version = "*", features = ["derive"] }
reqwest = { version = "*", default-features = false, features = ["blocking", "json"] }
