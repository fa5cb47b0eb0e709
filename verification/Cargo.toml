[package]
name = "bore_tunnel"
version = "0.1.0"
edition = "2021"
publish = false

[dependencies]
anyhow = "=1.0.104"
clap = { version = "=4.6.7", features = ["derive", "env"] }
dashmap = "=6.2.1"
hmac = "=0.13.0"
lazy_static = "=1.5.1"
prometheus = "=0.14.0"
rustls-pemfile = "=2.2.0"
sha2 = "=0.11.0"
tokio = { version = "=1.53.2", features = ["full"] }
tokio-rustls = "=0.26.6"
tracing = "*"
tracing-subscriber = "*"
uuid = { version = "=1.27.0", features = ["v4"] }
warp = { version = "=0.4.3", features = ["server"] }
webpki-roots = "=1.0.9"
