[package]
name = "acars_vdlm2_parser"
version = "0.3.0"
edition = "2021"
publish = false

[dependencies]
serde = { version = "=1.0.229", features = ["derive"] }
serde_json = "=1.0.151"
uuid = { version = "=1.27.0", features = ["v4"] }
hex = "=0.4.3"
libm = "=0.2.16"
chrono = "=0.4.45"
tokio = { version = "=1.53.2", features = ["full"] }
clap = { version = "=4.6.7", features = ["derive"] }
deku = "=0.16.0"

[dev-dependencies]
