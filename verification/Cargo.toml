[package]
name = "hooker"
version = "0.1.0"
edition = "2021"
publish = false

[dependencies]
byteorder = "1"
colored = "2"
pcap = "*"
sysinfo = { version = "0.29", default-features = false }
tokio = { version = "1", features = ["macros", "rt-multi-thread", "time"] }
ts3-query = "*"
