[package]
name = "weact-h743"
version = "0.1.0"
edition = "2021"
publish = false

[dependencies]
chrono = { version = "=0.4.45", default-features = false }
cortex-m = "=0.7.10"
cortex-m-rt = "=0.7.7"
defmt = "=1.2.0"
defmt-rtt = "=1.3.1"
embassy-executor = "=0.10.0"
embassy-stm32 = { version = "=0.6.0", features = ["defmt", "exti", "stm32h743vi", "time-driver-any"] }
embassy-sync = "=0.8.0"
embassy-time = "=0.5.1"
embedded-graphics = "=0.8.2"
embedded-hal = "=1.0.0"
embedded-hal-async = "=1.0.0"
embedded-hal-bus = "=0.3.0"
panic-halt = "=0.2.0"
st7735-lcd = { version = "=0.10.0", features = ["graphics"] }
static_cell = "=2.1.1"
stm32h7xx-hal = { version = "=0.16.0", default-features = false, features = ["rtc", "stm32h743v"] }
