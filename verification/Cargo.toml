[package]
name = "entropy_network_status_page"
version = "0.1.0"
edition = "2021"
publish = false

[dependencies]
axum = "=0.6.20"
axum-server = { version = "=0.5.1", features = ["tls-rustls"] }
ethers-core = "=2.0.14"
futures = "=0.3.34"
hex = "=0.4.3"
leptos = { version = "=0.5.7", features = ["ssr"] }
leptos_axum = "=0.5.7"
leptos_meta = { version = "=0.5.7", features = ["ssr"] }
leptos_router = { version = "=0.5.7", features = ["ssr"] }
log = "=0.4.34"
parity-scale-codec = "=3.7.5"
pretty-bytes-rust = "=0.3.0"
reqwest = { version = "=0.11.27", default-features = false }
serde = { version = "=1.0.229", features = ["derive"] }
serde_json = "=1.0.154"
simple_logger = "=4.3.3"
synedrion = "=0.1.0"
tokio = { version = "=1.54.1", features = ["macros", "rt-multi-thread"] }
tower = "=0.4.13"
tower-http = { version = "=0.4.4", features = ["fs"] }
tracing = "=0.1.44"
