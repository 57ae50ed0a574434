[package]
name = "led_strip"
version = "0.1.0"
edition = "2021"
publish = false

[dependencies]
cortex-m = "0.6"
cortex-m-rt = "0.6"
panic-halt = "0.2"
stm32f1xx-hal = { version = "0.7", features = ["stm32f103", "rt", "medium"] }
