[package]
name = "https_server"
version = "0.1.0"
edition = "2021"
publish = false

[dependencies]
actix = "=0.13.5"
actix-cors = "=0.6.5"
actix-files = "=0.6.10"
actix-web = { version = "=4.18.1", default-features = false, features = ["macros", "compress-gzip", "cookies", "http2", "unicode", "ws", "rustls-0_21"] }
actix-web-actors = "=4.3.1"
actix-web-prom = "=0.10.0"
dotenv = "=0.15.0"
num_cpus = "1"
once_cell = "1"
prometheus = "=0.14.0"
rustls = "=0.21.12"
rustls-pemfile = "=1.0.4"
serde = { version = "1", features = ["derive"] }
tracing = "0.1"
tracing-subscriber = { version = "0.3", features = ["env-filter"] }
