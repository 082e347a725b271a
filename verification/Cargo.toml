[package]
name = "nixie_clock"
version = "0.1.0"
edition = "2021"
publish = false

[dependencies]
bitvec = { version = "=1.1.1", default-features = false }
embedded-hal = "=0.2.7"
num-traits = { version = "=0.2.19", default-features = false }
cortex-m = "=0.7.10"
stm32l0xx-hal = { version = "=0.10.0", features = ["mcu-STM32L011F4Px"] }
