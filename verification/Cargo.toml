[package]
name = "taos-ws"
version = "0.1.0"
edition = "2021"
publish = false

[dependencies]
taos-query = "=0.12.4"
taos-error = "=0.12.4"
once_cell = "=1.21.4"
chrono = "=0.4.45"
anyhow = "=1.0.104"
thiserror = "=1.0.69"
futures = "=0.3.34"
async-trait = "=0.1.92"
