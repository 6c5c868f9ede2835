[package]
name = "fjall_typed"
version = "0.1.0"
edition = "2021"
publish = false

[dependencies]
fjall = "*"
byteorder = "1"
roaring = "*"
serde = { version = "1", features = ["derive"] }
serde_json = "1"
postcard = { version = "1", features = ["alloc"] }
rmp-serde = "1"
facet = "*"
facet-format = "*"
facet-json = "*"
facet-msgpack = "*"
facet-postcard = "*"
rkyv = "0.8"
