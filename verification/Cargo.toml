[package]
name = "paperless_ngx_ocr2"
version = "0.1.0"
edition = "2021"
publish = false

[dependencies]
chrono = "*"
clap = { version = "4", features = ["derive", "env"] }
dotenv = "*"
mime_guess = "*"
rand = "0.8"
reqwest = { version = "*", default-features = false, features = ["json", "multipart", "gzip", "deflate", "brotli", "stream", "rustls-tls"] }
serde = { version = "*", features = ["derive"] }
serde_json = "*"
tokio = { version = "*", features = ["rt-multi-thread", "macros", "fs", "time"] }
toml = "*"
tracing = "*"
tracing-subscriber = { version = "*", features = ["env-filter", "json"] }
url = "*"

[dev-dependencies]
tempfile = "*"
