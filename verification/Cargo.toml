[package]
name = "scrapman"
version = "0.1.0"
edition = "2021"
publish = false

[dependencies]
async-trait = "0.1"
fantoccini = { version = "*", default-features = false, features = ["rustls-tls"] }
json_dotpath = "*"
log = "0.4"
serde = { version = "1", features = ["derive"] }
serde_json = "1"
tokio = { version = "1", features = ["time"] }
