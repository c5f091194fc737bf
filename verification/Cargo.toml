[package]
name = "junit_report"
version = "0.8.3"
edition = "2021"
publish = false

[dependencies]
quick-xml = "*"
time = { version = "0.3", features = ["formatting"] }
