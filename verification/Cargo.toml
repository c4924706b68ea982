[package]
name = "moto_dashboard"
version = "0.1.0"
edition = "2021"
publish = false

[dependencies]
embedded-graphics = "0.8"
heapless = "0.7"
num-traits = "0.2"
embassy-sync = "0.5"
embassy-time = { version = "0.3", features = ["std"] }
embassy-executor = { version = "0.5", features = ["arch-std", "executor-thread", "integrated-timers"] }
static_cell = "2"
log = "0.4"
