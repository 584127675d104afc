[package]
name = "canbus_gauge"
version = "0.1.0"
edition = "2021"
publish = false

[dependencies]
embedded-can = "=0.4.1"
heapless = "=0.9.3"
embedded-graphics = "=0.8.2"
mcp2515 = "=0.3.0"
embassy-executor = "=0.9.1"
embassy-futures = "=0.1.2"
embassy-time = "=0.5.1"
embassy-stm32 = { version = "=0.6.0", features = ["stm32f411ce", "time-driver-any"] }
embedded-hal-bus = "=0.3.0"
mipidsi = "=0.10.0"
defmt = "=1.2.0"
defmt-rtt = "=1.3.1"
panic-probe = "=1.0.0"
static_cell = "=2.1.1"
