[package]
name = "nrf_rustboard"
version = "0.1.0"
edition = "2021"
publish = false

[dependencies]
heapless = "=0.9.3"
const-gen = "=1.6.10"
cortex-m = "=0.7.10"
defmt-rtt = "=1.3.1"
embassy-executor = "=0.9.1"
embassy-futures = "=0.1.2"
embassy-nrf = { version = "=0.11.0", features = ["nrf52840", "time-driver-rtc1", "gpiote", "unstable-pac"] }
embassy-sync = "=0.8.0"
embassy-time = "=0.5.1"
embedded-storage-async = "=0.4.2"
panic-probe = "=1.0.0"
sequential-storage = "=8.0.2"
serde = { version = "=1.0.229", features = ["derive"] }
ssmarshal = "=1.0.0"
static_cell = "=2.1.1"
toml = "*"
trouble-host = { version = "=0.8.0", features = ["security"] }
usbd-hid = "=0.10.2"
