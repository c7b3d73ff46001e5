[package]
name = "zio_testkit"
version = "0.1.0"
edition = "2021"
publish = false

[dependencies]
mio = { version = "=1.2.4", features = ["os-poll", "os-ext"] }
polling = "=3.11.0"
zio = { version = "=0.0.1-dev.1", features = ["test-support"] }
