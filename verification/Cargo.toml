[package]
name = "fmc_bringup"
version = "0.1.0"
edition = "2021"
publish = false

[dependencies]
cortex-m = "=0.7.10"
cortex-m-rt = "=0.6.15"
cortex-m-semihosting = "=0.6.0"
panic-halt = "=1.0.0"
stm32f3xx-hal-v2 = { version = "=0.6.0", features = ["stm32f303xe"] }
