[package]
name = "palanuk_core"
version = "0.1.0"
edition = "2021"
publish = false

[dependencies]
cu29 = "=1.3.1"
cu-pid = "=1.3.0"
cu-bincode = "=2.2.0"
serde = { version = "=1.0.229", features = ["derive"] }
gpio-cdev = "*"
libc = "*"
iceoryx2 = "*"
dumb-ina219 = "*"
hcsr04-gpio-cdev = "*"
