[package]
name = "kl25z_hal"
version = "0.1.0"
edition = "2021"
publish = false

[dependencies]
mkl25z4 = "*"
cortex-m = "*"
embedded-hal = "0.2"
nb = "0.1"
void = "1"
