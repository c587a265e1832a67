[package]
name = "ingress_proxy"
version = "0.1.0"
edition = "2021"
publish = false

[dependencies]
amqprs = "=2.1.5"
anyhow = "=1.0.104"
async-stream = "=0.3.6"
axum = "=0.8.9"
axum-extra = { version = "=0.12.6", features = ["typed-header"] }
config = { version = "=0.15.27", default-features = false, features = ["yaml"] }
futures = "=0.3.34"
reqwest = { version = "=0.12.28", default-features = false, features = ["stream"] }
reqwest-eventsource = "=0.6.0"
secrecy = { version = "=0.10.3", features = ["serde"] }
serde = { version = "=1.0.229", features = ["derive"] }
serde-aux = { version = "=4.7.0", default-features = false }
serde_json = "=1.0.151"
tokio = { version = "=1.53.2", features = ["full"] }
tower = "=0.5.3"
tower-http = { version = "=0.7.1", features = ["request-id", "trace", "util"] }
tracing = "=0.1.44"
tracing-bunyan-formatter = "=0.3.10"
tracing-log = "=0.2.0"
tracing-subscriber = { version = "=0.3.23", features = ["env-filter", "fmt"] }
uuid = { version = "=1.27.0", features = ["v4"] }
