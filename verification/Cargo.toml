[package]
name = "node_metrics"
version = "0.1.0"
edition = "2021"
publish = false

[dependencies]
log = "0.4"
once_cell = "1"
sp-std = "*"
substrate-prometheus-endpoint = "*"
