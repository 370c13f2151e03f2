[package]
name = "opendeck_n4"
version = "0.1.0"
edition = "2021"
publish = false

[dependencies]
data-url = "*"
image = { version = "*", default-features = false, features = ["jpeg"] }
mirajazz = "*"
openaction = "*"
tokio = { version = "*", features = ["rt-multi-thread", "macros", "time", "sync"] }
tokio-util = "*"
futures-lite = "*"
log = "*"
