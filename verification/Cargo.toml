[package]
name = "lighty_launcher"
version = "0.1.0"
edition = "2021"
publish = false

[dependencies]
anyhow = "=1.0.104"
directories = "=6.0.0"
flate2 = "*"
hex = "=0.4.3"
once_cell = "=1.21.4"
path-absolutize = "=4.0.1"
reqwest = { version = "=0.13.5", default-features = false, features = ["json"] }
scraper = "=0.27.0"
serde = { version = "=1.0.229", features = ["derive"] }
serde_json = "=1.0.151"
sha1 = "=0.11.0"
sysinfo = "=0.39.6"
tar = "*"
tokio = { version = "=1.53.2", features = ["rt", "macros", "process", "io-util", "sync", "fs", "time"] }
version-compare = "=0.2.1"
zip = { version = "=8.6.0", default-features = false, features = ["deflate"] }
