[package]
name = "easy_init_newrelic_opentelemetry"
version = "0.1.0"
edition = "2021"
publish = false

[dependencies]
opentelemetry = "=0.27.1"
opentelemetry_sdk = { version = "=0.27.1", features = ["rt-tokio"] }
opentelemetry-otlp = { version = "=0.27.0", features = ["http-json", "reqwest-client"] }
opentelemetry-semantic-conventions = { version = "=0.27.0", features = ["semconv_experimental"] }
opentelemetry-appender-tracing2 = "=0.27.1"
tracing-opentelemetry = "=0.28.0"
tracing-subscriber = { version = "=0.3.23", features = ["env-filter", "time"] }
time = { version = "=0.3.55", features = ["formatting"] }

[dev-dependencies]
tokio = { version = "=1.53.2", features = ["rt-multi-thread"] }
