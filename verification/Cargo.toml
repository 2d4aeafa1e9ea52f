[package]
name = "rk3588_support"
version = "0.1.0"
edition = "2021"
publish = false

[dependencies]
ax-errno = "=0.6.3"
ax-memory-addr = "=0.6.11"
axfs-ng-vfs = "=0.5.8"
axpoll = "=0.3.11"
fdt-edit = "=0.2.3"
linux-raw-sys = { version = "=0.12.1", features = ["general"] }
log = "=0.4.35"
rdrive = "=0.21.0"
rockchip-npu = "=0.2.13"
rockchip-pm = "=0.4.7"
