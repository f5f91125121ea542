[package]
name = "actix_chain"
version = "0.1.0"
edition = "2021"
publish = false

[dependencies]
actix-files = "0.6"
actix-http = { version = "3", default-features = false }
actix-service = "2"
actix-web = { version = "4", default-features = false }
awc = { version = "3", default-features = false }
derive_more = { version = "2", features = ["display", "error", "from"] }
fastcgi-client = "*"
futures-core = "0.3"
http = "0.2"
httparse = "1"
mod_rewrite = "*"
pin-project = "1"
serde_urlencoded = "0.7"
tokio = { version = "1", features = ["net", "io-util"] }
tracing = "0.1"
