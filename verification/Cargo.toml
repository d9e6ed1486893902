[package]
name = "sensor_link"
version = "0.1.0"
edition = "2021"
publish = false

[dependencies]
byteorder = "=1.5.0"
heapless = "=0.8.0"
snow = "=0.9.6"
rand = "=0.8.8"
musli = { version = "=0.2.1", features = ["storage"] }
thiserror = "=1.0.69"
log = "=0.4.34"
env_logger = "=0.11.11"
libc-print = "=0.1.23"
tokio = { version = "=1.54.1", features = ["macros", "net", "rt", "signal", "sync", "time"] }
tracing = "=0.1.44"
tracing-subscriber = { version = "=0.3.23", features = ["env-filter"] }
