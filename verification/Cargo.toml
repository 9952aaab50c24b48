[package]
name = "rspack_cacheable"
version = "0.1.0"
edition = "2021"
publish = false

[dependencies]
rkyv = { version = "=0.7.46", default-features = false, features = ["std", "size_64", "validation", "archive_le"] }
ptr_meta = "=0.1.4"
inventory = "=0.3.25"
once_cell = "=1.21.4"
indexmap = "=2.14.2"
hashlink = "=0.12.2"
dashmap = "=6.2.1"
rustc-hash = "=2.1.3"
serde_json = "=1.0.154"
json = "=0.12.4"
camino = "=1.2.6"
smol_str = "=0.3.7"
ustr = "=1.1.0"
rspack_sources = "=0.102.9"
syn = { version = "=2.0.119", features = ["full"] }
quote = "=1.0.47"
proc-macro2 = "=1.0.107"
