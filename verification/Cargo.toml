[package]
name = "kurobako"
version = "0.1.0"
edition = "2021"
publish = false

[dependencies]
sha2 = "=0.10.9"
serde = { version = "=1.0.229", features = ["derive"] }
serde_json = "=1.0.154"
rand = "=0.8.8"
regex = "=1.13.1"
rlua = "*"
hdf5file = "*"
randomforest = "*"
