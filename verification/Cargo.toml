[package]
name = "psql-srv"
version = "0.1.0"
edition = "2021"
publish = false

[dependencies]
smallvec = "1"
postgres-types = "0.2"
tokio-postgres = "0.7"
tokio = { version = "1", features = ["rt-multi-thread", "net", "macros", "io-util"] }
async-trait = "0.1"
clap = { version = "4", features = ["derive"] }
anyhow = "1"
tracing = "0.1"
