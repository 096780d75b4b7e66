[package]
name = "metrics_controller"
version = "0.1.0"
edition = "2021"
publish = false

[dependencies]
chrono = "=0.4.45"
env_logger = "=0.11.11"
flate2 = "=1.1.10"
hyper = "=0.10.16"
lazy_static = "=1.5.1"
log = "=0.4.34"
retry = "=0.4.0"
serde_json = "=1.0.154"
sys-info = "=0.9.1"
telemetry = "=0.1.3"
time = "=0.1.45"
timer = "=0.2.0"
url = "=1.7.2"
uuid = { version = "=1.29.0", features = ["v4"] }
