[package]
name = "minetui"
version = "0.1.0"
edition = "2021"
publish = false

[dependencies]
crossterm = "0.28"
directories = "5"
futures = "0.3"
hex = "0.4"
md5 = "0.7"
ratatui = "0.29"
reqwest = { version = "0.12", default-features = false, features = ["json", "rustls-tls"] }
serde = { version = "1", features = ["derive"] }
serde_json = "1"
sha1 = "0.10"
tokio = { version = "1", features = ["full"] }
uuid = "1"
zip = { version = "2", default-features = false, features = ["deflate"] }
