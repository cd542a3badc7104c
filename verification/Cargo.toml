[package]
name = "streaker"
version = "0.1.0"
edition = "2021"
publish = false

[dependencies]
anyhow = "=1.0.104"
barrel = { version = "=0.6.5", features = ["pg"] }
chrono = { version = "=0.4.45", features = ["serde"] }
ctrlc = "=3.5.2"
dotenv = "=0.15.0"
futures = "=0.3.34"
include_dir = "=0.7.4"
jsonwebtoken = "=7.2.0"
lazy_static = "=1.5.1"
load-dotenv = "=0.1.2"
log = "=0.4.35"
maud = "=0.22.3"
pretty_env_logger = "=0.4.0"
qrcode-generator = "=1.0.6"
serde = { version = "=1.0.229", features = ["derive"] }
serde_json = "=1.0.154"
sqlx = { version = "=0.3.5", default-features = false, features = ["postgres", "runtime-tokio", "macros", "chrono", "uuid"] }
sqlx-core = { version = "=0.5.13", features = ["runtime-tokio-native-tls"] }
sqlx-pg-migrate = "=1.2.0"
sqlx-rt = { version = "=0.5.13", features = ["runtime-tokio-native-tls"] }
thiserror = "=1.0.69"
tokio = { version = "=0.2.25", features = ["full"] }
url = "=2.5.8"
uuid = { version = "=0.8.2", features = ["serde", "v4"] }
warp = "=0.2.5"
wasm-bindgen = "=0.2.130"
wasm-logger = "=0.2.0"
yew = "=0.17.4"
yew-router = "=0.14.0"
