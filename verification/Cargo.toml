[package]
name = "sensor_net"
version = "0.1.0"
edition = "2021"
publish = false

[dependencies]
serde = { version = "1", features = ["derive"] }
postcard = { version = "1", features = ["alloc"] }
clap = { version = "4", features = ["derive"] }
rppal = "0.17"
rumqttc = { version = "0.24", default-features = false }
tokio = { version = "1", features = ["macros", "rt-multi-thread"] }
embedded-hal-async = "1.0"
embedded-io-async = "0.6"
