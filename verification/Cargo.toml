[package]
name = "gourami_social"
version = "0.1.0"
edition = "2021"
publish = false

[dependencies]
regex = "=1.13.1"
ammonia = "=4.2.4"
uuid = { version = "=1.29.0", features = ["v4"] }
bcrypt = "=0.15.1"
zxcvbn = "=2.2.2"
rand = "=0.8.8"
chrono = { version = "=0.4.45", features = ["serde"] }
serde = { version = "=1.0.229", features = ["derive"] }
serde_json = "=1.0.154"
base64 = "=0.13.1"
ring = "=0.17.14"
openssl = "=0.10.82"
http-signature-normalization = "=0.7.1"
warp = { version = "=0.3.7", features = ["tls"] }
tokio = { version = "=1.54.1", features = ["full"] }
reqwest = { version = "=0.11.27", features = ["json"] }
hyper = "=0.14.32"
http = "=0.2.12"
diesel = { version = "=1.4.8", features = ["sqlite", "r2d2", "chrono"] }
diesel_migrations = "=1.4.0"
r2d2 = "=0.8.10"
dotenv = "=0.15.0"
env_logger = "=0.10.2"
log = "=0.4.35"
clap = "=2.34.0"
askama = "=0.10.5"
lazy_static = "=1.5.1"
rss = "=1.10.0"
