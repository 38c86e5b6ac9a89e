[package]
name = "deimos-bcm2835"
version = "0.1.0"
edition = "2021"
publish = false

[dependencies]
hashbrown = "=0.17.1"
allocator-api2 = "=0.2.21"
tock-registers = "=0.10.1"
bcm2835-lpa = "=0.4.0"
bytemuck = "=1.25.2"
embedded-alloc = "=0.7.0"
critical-section = { version = "=1.2.0", features = ["restore-state-u32"] }
