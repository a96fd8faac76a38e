[package]
name = "movie_rating_site"
version = "0.1.0"
edition = "2021"
publish = false

[dependencies]
serde = { version = "=1.0.229", features = ["derive"] }
serde_json = "=1.0.154"
reqwest = { version = "=0.11.27", default-features = false, features = ["json"] }
argon2 = "=0.4.1"
rand_core = { version = "=0.6.4", features = ["getrandom"] }
jsonwebtoken = "=8.3.0"
uuid = { version = "=1.29.0", features = ["v4", "serde"] }
sqlx = { version = "=0.6.3", default-features = false, features = ["runtime-tokio-rustls", "sqlite", "chrono", "migrate"] }
warp = { version = "=0.3.7", default-features = false }
tokio = { version = "=1.54.1", features = ["macros", "rt-multi-thread"] }
http = "=0.2.12"
dotenv = "=0.15.0"
lazy_static = "=1.5.1"
log = "=0.4.35"
pretty_env_logger = "=0.4.0"
anyhow = "=1.0.104"
thiserror = "=1.0.69"
validator = { version = "=0.15.0", features = ["derive"] }
zxcvbn = "=2.2.2"
ctor = "=0.1.26"
yew = "=0.19.3"
yew-router = "=0.16.0"
gloo-storage = "=0.2.2"
reqwasm = "=0.5.0"
web-sys = { version = "=0.3.107", features = ["HtmlInputElement", "HtmlElement"] }
wasm-logger = "=0.2.0"
load-dotenv = "=0.1.2"
