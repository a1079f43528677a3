[package]
name = "lrcall"
version = "0.1.0"
edition = "2021"
publish = false

[dependencies]
bincode = "=1.3.3"
flate2 = "=1.1.10"
opentelemetry = "=0.24.0"
rand = "=0.8.8"
serde = { version = "=1.0.229", features = ["derive"] }
static_assertions = "=1.1.0"
tracing = "=0.1.44"
tracing-opentelemetry = "=0.25.0"

[dev-dependencies]
tracing-subscriber = { version = "=0.3.23", default-features = false, features = ["registry", "std"] }
