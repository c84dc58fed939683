[package]
name = "flash_corruptor"
version = "0.1.0"
edition = "2021"
publish = false

[dependencies]
cortex-m = "=0.7.10"
cortex-m-rt = "=0.7.7"
rtt-target = { version = "=0.3.1", features = ["cortex-m"] }
static_assertions = "=1.1.0"
stm32l4 = { version = "=0.14.0", features = ["stm32l4x1"] }
stm32l4xx-hal = { version = "=0.7.1", features = ["stm32l471"] }
