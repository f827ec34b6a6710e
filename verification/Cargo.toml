[package]
name = "core_s3"
version = "0.4.2"
edition = "2021"
publish = false

[dependencies]
embedded-hal = "1.0"
embedded-hal-bus = "0.3"
embedded-graphics = "0.8"
embedded-sdmmc = "0.8"
heapless = "0.8"
critical-section = "1"
esp-hal = { version = "1", default-features = false, features = ["esp32s3"] }
