[package]
name = "element_waiter"
version = "0.1.0"
edition = "2021"
publish = false

[dependencies]
stringmatch = "*"
thirtyfour = "0.27"
tokio = { version = "1", features = ["time"] }
