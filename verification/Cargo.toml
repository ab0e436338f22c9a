[package]
name = "bambumate"
version = "0.1.0"
edition = "2021"
publish = false

[dependencies]
anyhow = "1"
base64 = "0.22"
chrono = "0.4"
dirs = "*"
html2text = "*"
image = { version = "*", default-features = false, features = ["jpeg", "png"] }
md5 = "0.7"
rand = "0.8"
regex = "1"
reqwest = { version = "*", default-features = false, features = ["json", "rustls-tls"] }
rusqlite = { version = "*", features = ["bundled"] }
scraper = "*"
serde = { version = "1", features = ["derive"] }
serde_json = "1"
tempfile = "3"
texting_robots = "*"
tokio = { version = "1", features = ["rt-multi-thread", "time", "sync"] }
toml = "*"
tracing = "0.1"
url = "2"
urlencoding = "2"
walkdir = "2"
