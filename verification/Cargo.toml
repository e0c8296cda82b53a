[package]
name = "axplat_aarch64"
version = "0.1.0"
edition = "2021"
publish = false

[dependencies]
aarch64-cpu = "*"
arm-gic-driver = "*"
arm_pl011 = "*"
axcpu = "*"
axplat = { version = "*", features = ["irq"] }
font8x8 = "=0.3.1"
kspin = "*"
lazyinit = "*"
log = "*"
memory_addr = "*"
minipng = "=1.0.0"
page_table_entry = "*"
