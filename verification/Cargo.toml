[package]
name = "databend_query"
version = "0.1.0"
edition = "2021"
publish = false

[dependencies]
chrono = "0.4"
enumflags2 = { version = "0.7", features = ["serde"] }
num-derive = "0.4"
num-traits = "0.2"
rustls = "0.21"
rustls-pemfile = "1"
serde = { version = "1", features = ["derive"] }
serde_json = "1"
