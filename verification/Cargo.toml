[package]
name = "vendor_oplus_charger"
version = "0.1.0"
edition = "2021"
publish = false

[dependencies]
anyhow = "=1.0.104"
libc = "=0.2.191"
parking_lot = "=0.12.5"
rsbinder = { version = "=0.12.0", features = ["macros"] }
tracing = "=0.1.44"
tracing-log = "=0.2.0"
tracing-logcat = "=0.1.0"
tracing-subscriber = { version = "=0.3.23", features = ["env-filter"] }
