[package]
name = "sysmon-subgraph-generator"
version = "0.1.0"
edition = "2021"
publish = false

[dependencies]
chrono = "0.4"
regex = "1"
sysmon = "*"
rayon = "1"
log = "0.4"
lazy_static = "1"
failure = "0.1"
futures = "0.1"
serde = "1"
stopwatch = "0.0.7"
simple_logger = "1"
openssl-probe = "0.1"
