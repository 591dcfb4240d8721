[package]
name = "rigos"
version = "0.1.0"
edition = "2021"
publish = false

[dependencies]
sha2 = "=0.10.9"
uuid = { version = "=1.29.0", features = ["v4"] }
serde_json = "=1.0.154"
chrono = "=0.4.45"
serde = { version = "=1.0.229", features = ["derive"] }
serde_yaml = "=0.9.34"
clap = { version = "=4.6.7", features = ["derive"] }
anyhow = "=1.0.104"
async-trait = "=0.1.92"
tokio = { version = "=1.54.1", features = ["full"] }
tracing = "=0.1.44"
tracing-subscriber = { version = "=0.3.23", features = ["env-filter", "fmt"] }
axum = "=0.7.9"
tower-http = { version = "=0.6.11", features = ["trace"] }
tonic = { version = "=0.12.3", features = ["tls"] }
prost = "=0.13.5"
reqwest = { version = "=0.12.28", default-features = false, features = ["json"] }
sqlx = { version = "=0.8.6", default-features = false, features = ["runtime-tokio", "postgres", "sqlite", "uuid", "chrono", "json", "derive"] }
wasmtime = { version = "=47.0.4", default-features = false, features = ["cranelift", "async", "runtime", "component-model", "std"] }
opentelemetry = "=0.33.1"
opentelemetry_sdk = "=0.33.1"
