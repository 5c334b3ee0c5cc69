[package]
name = "rp-usb-serial"
version = "0.3.4"
edition = "2021"
publish = false

[dependencies]
heapless = "0.8"
usb-device = "0.3"
usbd-serial = "0.2"
critical-section = "1"
static_cell = "2"
rp2040-hal = "0.10"
