[package]
name = "co2_monitor"
version = "0.1.0"
edition = "2021"
publish = false

[dependencies]
num = { version = "*", default-features = false }
embedded-graphics = "*"
tinybmp = "*"
itoa = "*"
ssd1306 = "*"
scd4x = "*"
embedded-hal = "*"
embedded-hal-bus = "*"
critical-section = "*"
esp-hal = "*"
esp-println = "*"
esp-bootloader-esp-idf = "*"
