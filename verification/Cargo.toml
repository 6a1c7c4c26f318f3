[package]
name = "banna"
version = "0.1.0"
edition = "2021"
publish = false

[dependencies]
regex = "1"
sha2 = "0.10"
anyhow = "1"
chrono = { version = "0.4", features = ["serde"] }
clap = { version = "4", features = ["derive"] }
serde = { version = "1", features = ["derive"] }
serde_json = "1"
directories = "*"
tempfile = "3"
walkdir = "2"
fs2 = "0.4"
ureq = "3"
flate2 = "1"
tar = "0.4"
zip = { version = "*", default-features = false, features = ["deflate"] }

[dev-dependencies]
tempfile = "3"
