[package]
name = "mioco"
version = "0.1.0"
edition = "2021"
publish = false

[dependencies]
mio = { version = "=1.2.4", default-features = false, features = ["os-poll", "os-ext", "net"] }
