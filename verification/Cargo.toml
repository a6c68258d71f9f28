[package]
name = "invaders_core"
version = "0.1.0"
edition = "2021"
publish = false

[dependencies]
nrf52833-hal = "=0.16.1"
cortex-m-rtic = "=1.1.4"
rtt-target = "=0.6.2"
panic-rtt-target = "=0.2.0"
void = { version = "=1.0.2", default-features = false }
