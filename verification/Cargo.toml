[package]
name = "escpos_lib"
version = "0.1.0"
edition = "2021"
publish = false

[dependencies]
any_ascii = "=0.3.3"
dirs = "=7.0.0"
dotenv = "=0.15.0"
futures = "=0.3.34"
lazy_static = "=1.5.1"
rustbreak = { version = "=2.0.0", features = ["ron_enc"] }
serde = { version = "=1.0.229", features = ["derive"] }
serialport = { version = "=4.10.1", default-features = false }
telegram-bot = "=0.8.0"
thiserror = "=1.0.69"
tokio = { version = "=1.54.1", features = ["macros", "rt"] }
toml = "=0.5.11"
tracing = "=0.1.44"
tracing-subscriber = "=0.3.23"
