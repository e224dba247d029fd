[package]
name = "safe_core"
version = "0.1.0"
edition = "2021"
publish = false

[dependencies]
bincode = "=1.3.3"
qp2p = "=0.36.4"
rmp = "=0.8.10"
self_encryption = "=0.36.2"
serde_json = "=1.0.154"
sn_data_types = "=0.18.4"
sn_messaging = "=26.0.0"
sn_transfers = "=0.6.0"
sodiumoxide = "=0.2.7"
thiserror = "=1.0.69"
