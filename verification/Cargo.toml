[package]
name = "todo_access"
version = "0.1.0"
edition = "2021"
publish = false

[dependencies]
mobc = "*"
mobc-postgres = "*"
tokio-postgres = "*"
hyper = { version = "0.14", features = ["client", "http1", "tcp"] }
hyper-tls = "0.5"
