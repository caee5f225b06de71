[package]
name = "webrender"
version = "0.1.0"
edition = "2021"
publish = false

[dependencies]
app_units = "*"
bincode = "1"
byteorder = "1"
euclid = "*"
fnv = "1"
libloading = "*"
rayon = "1"
serde = { version = "1", features = ["derive"] }
serde_json = "1"
smallvec = "1"
time = "0.1"
zeitstempel = "*"
