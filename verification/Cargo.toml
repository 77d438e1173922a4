[package]
name = "oci-wasm"
version = "0.1.0"
edition = "2021"
publish = false

[dependencies]
anyhow = "=1.0.104"
chrono = { version = "=0.4.45", features = ["serde"] }
oci-client = { version = "=0.18.0", default-features = false, features = ["rustls-tls-no-provider"] }
serde = { version = "=1.0.229", features = ["derive"] }
serde_json = "=1.0.154"
sha2 = "=0.10.9"
tokio = { version = "=1.54.1", features = ["fs", "macros", "rt"] }
wit-component = "=0.262.0"
wit-parser = "=0.262.0"

[dev-dependencies]
semver = "=1.0.28"
wit-component = { version = "=0.262.0", features = ["dummy-module"] }
