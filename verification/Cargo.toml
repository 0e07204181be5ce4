[package]
name = "calc_interceptor"
version = "0.1.0"
edition = "2021"
publish = false

[dependencies]
actix-cors = "*"
actix-web = "4"
dotenvy = "*"
futures-util = "*"
sentry = { version = "*", default-features = false }
sentry-tracing = "*"
serde = { version = "1", features = ["derive"] }
thiserror = "*"
tokio = { version = "1", features = ["macros", "rt-multi-thread"] }
tracing = "0.1"
tracing-subscriber = { version = "*", features = ["env-filter", "fmt"] }
