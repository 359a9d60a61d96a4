[package]
name = "test_app"
version = "0.1.0"
edition = "2021"
publish = false

[dependencies]
candid = "=0.10.39"
ic-cdk = "=0.20.3"
ic-cdk-macros = "=0.20.3"
ic-cdk-timers = "=1.0.0"
include_dir = "=0.7.4"
serde_bytes = "=0.11.19"
serde_json = "=1.0.154"
