[package]
name = "serial-sensors"
version = "0.1.0"
edition = "2021"
publish = false

[dependencies]
serial-sensors-proto = { version = "=0.4.0", features = ["std"] }
tokio = { version = "=1.54.1", features = ["full"] }
tokio-serial = { version = "=5.5.0", default-features = false }
bincode = { version = "=2.0.0-rc.3", default-features = false }
bincode_derive = "=2.0.0-rc.3"
async-compression = { version = "=0.4.51", features = ["tokio", "gzip"] }
clap = { version = "=4.6.7", features = ["derive", "cargo"] }
color-eyre = "=0.6.5"
directories = "=5.0.1"
dotenvy = "=0.15.7"
lazy_static = "=1.5.1"
log = "=0.4.34"
tracing = "=0.1.44"
tracing-error = "=0.2.1"
tracing-subscriber = { version = "=0.3.23", features = ["env-filter"] }
