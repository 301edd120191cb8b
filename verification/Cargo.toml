[package]
name = "etw_eventheader_log"
version = "0.1.0"
edition = "2021"
publish = false

[dependencies]
chrono = { version = "0.4", default-features = false, features = ["std"] }
crossbeam-utils = "0.8"
eventheader = "*"
eventheader_dynamic = "*"
lazy_static = "1"
log = { version = "=0.4.20", features = ["std", "kv_unstable", "kv_unstable_serde"] }
opentelemetry_api = "*"
serde = { version = "1", features = ["derive"] }
serde_derive = "1"
serde_json = "1"
tracelogging = "*"
tracelogging_dynamic = "*"
