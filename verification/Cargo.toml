[package]
name = "axi_hdl"
version = "0.1.0"
edition = "2021"
publish = false

[dependencies]
arbitrary-int = "2"
critical-section = "1"
derive-mmio = "*"
embassy-sync = "*"
embedded-hal = "1"
embedded-hal-async = "1"
embedded-io = "*"
embedded-io-async = "*"
nb = "1"
static_assertions = "1"
thiserror = "2"
vcell = "0.1"

[dev-dependencies]
critical-section = { version = "1", features = ["std"] }
