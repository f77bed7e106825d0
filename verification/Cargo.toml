[package]
name = "a7105"
version = "0.1.0"
edition = "2021"
publish = false

[dependencies]
nom = { version = "=7.1.3", default-features = false }
embedded-hal = "=1.0.0"
defmt = "=1.2.0"
defmt-rtt = "=1.3.1"
panic-probe = { version = "=1.0.0", features = ["print-defmt"] }
embassy-executor = { version = "=0.9.1", features = ["arch-std", "executor-thread", "defmt"] }
embassy-stm32 = { version = "=0.6.0", features = ["stm32f411ce", "time-driver-any", "memory-x", "defmt"] }
embassy-time = { version = "=0.5.1", features = ["defmt"] }
