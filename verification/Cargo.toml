[package]
name = "fust_orm"
version = "0.1.0"
edition = "2021"
publish = false

[dependencies]
sqlx = { version = "0.8", default-features = false, features = ["sqlite", "runtime-tokio"] }
pyo3 = "*"
pyo3-async-runtimes = { version = "*", features = ["tokio-runtime"] }
thiserror = "*"

[dev-dependencies]
tokio = { version = "1", features = ["rt", "rt-multi-thread"] }
