[package]
name = "cpu_monitor"
version = "0.1.0"
edition = "2021"
publish = false

[dependencies]
chrono = "0.4"
iced = { version = "0.3", features = ["canvas", "tokio"] }
plotters = { version = "0.3", default-features = false, features = ["chrono", "area_series", "line_series"] }
plotters-iced = "0.1"
rand = "0.8"
sysinfo = "0.22"
