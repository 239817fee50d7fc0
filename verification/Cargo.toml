[package]
name = "stm32f411ve_disco"
version = "0.1.0"
edition = "2021"
publish = false

[dependencies]
defmt = "*"
embassy-stm32 = { version = "*", features = ["stm32f411ve", "defmt", "time-driver-any"] }
embassy-time = "*"
micromath = "*"
