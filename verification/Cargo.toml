[package]
name = "subgraph_service"
version = "0.1.0"
edition = "2021"
publish = false

[dependencies]
async-graphql = { version = "=7.2.1", features = ["tracing"] }
async-graphql-axum = "=7.2.1"
axum = "=0.8.9"
clap = { version = "=4.6.7", features = ["derive", "env"] }
mimalloc = "=0.1.52"
tokio = { version = "=1.54.1", features = ["macros", "rt-multi-thread", "net"] }
tracing = "=0.1.44"
tracing-forest = "=0.1.6"
tracing-subscriber = { version = "=0.3.23", features = ["env-filter"] }
