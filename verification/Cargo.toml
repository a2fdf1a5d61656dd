[package]
name = "to_local_time"
version = "0.1.0"
edition = "2021"
publish = false

[dependencies]
arrow = "52"
chrono = "=0.4.38"
datafusion-common = "40"
datafusion-expr = "40"
