[package]
name = "extrittio_backend"
version = "0.1.0"
edition = "2021"
publish = false

[dependencies]
sha2 = "0.10"
uuid = { version = "1", features = ["v4"] }
chrono = "0.4"
serde_json = "1"
thiserror = "2"
async-trait = "0.1"
tokio = { version = "1", features = ["rt"] }
diesel = { version = "2", features = ["postgres", "r2d2", "chrono", "serde_json"] }
