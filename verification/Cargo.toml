[package]
name = "whisperfish"
version = "0.1.0"
edition = "2021"
publish = false

[dependencies]
phonenumber = "0.3"
uuid = "1"
regex = "1"
hex = "0.4"
actix = "0.13"
tokio = { version = "1", features = ["rt", "time", "macros"] }
futures = "0.3"
chrono = "0.4"
dirs = "5"
log = "0.4"
tracing = "0.1"
anyhow = "1"
diesel = { version = "2", features = ["sqlite"] }
