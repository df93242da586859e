[package]
name = "usbd_human_interface_device"
version = "0.1.0"
edition = "2021"
publish = false

[dependencies]
ssmarshal = { version = "1", default-features = false }
serde = { version = "1", default-features = false, features = ["derive"] }
usb-device = "0.2"
usbd-hid = "0.6"
packed_struct = { version = "0.10", default-features = false }
embedded-time = "0.12"
log = "0.4"
