[package]
name = "msp_fw"
version = "0.1.0"
edition = "2021"
publish = false

[dependencies]
embedded-hal = "=1.0.0"
embedded-graphics = "=0.8.2"
ssd1306 = "=0.10.0"
msp430 = "=0.4.1"
msp430-rt = "=0.4.1"
panic-msp430 = "=0.4.0"
msp430fr2355 = "=0.7.0"
msp430fr2433 = "=0.3.0"
