[package]
name = "rinha_compiladores"
version = "0.1.0"
edition = "2021"
publish = false

[dependencies]
rinha = "=0.0.6"
chrono = "*"
serde = { version = "1", features = ["derive"] }
serde_json = { version = "1", features = ["unbounded_depth"] }
serde_stacker = "*"
rustyline = "*"
