[package]
name = "lantern"
version = "0.1.0"
edition = "2021"
publish = false

[dependencies]
cortex-m = "=0.7.10"
cortex-m-rt = "=0.7.7"
cortex-m-rtic = "=1.1.4"
defmt = "=1.2.0"
defmt-rtt = "=1.3.1"
infrared = "=0.14.2"
panic-probe = "=1.0.0"
smart-leds = "=0.3.0"
stm32g0xx-hal = { version = "=0.2.0", features = ["rt", "stm32g031"] }
ws2812-spi = "=0.4.0"
