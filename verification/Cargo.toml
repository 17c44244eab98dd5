[package]
name = "indicator_core"
version = "0.1.0"
edition = "2021"
publish = false

# The executor and the mutex are built for the development host; the firmware
# image selects "arch-cortex-m" and drops "std".
[dependencies]
defmt = "=0.3.101"
defmt-rtt = "=0.4.2"
embassy-executor = { version = "=0.5.1", features = ["arch-std", "executor-thread", "defmt", "integrated-timers"] }
embassy-stm32 = { version = "=0.1.0", features = ["defmt", "stm32f051r8", "memory-x", "time-driver-any", "exti"] }
embassy-sync = { version = "=0.5.0", features = ["defmt", "std"] }
embassy-time = { version = "=0.3.2", features = ["defmt", "defmt-timestamp-uptime"] }
panic-probe = { version = "=0.3.2", features = ["print-defmt"] }
