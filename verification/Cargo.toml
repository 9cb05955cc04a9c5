[package]
name = "ffi_common"
version = "0.1.0"
edition = "2021"
publish = false

[dependencies]
heck = "0.3"
syn = { version = "1", features = ["full", "extra-traits"] }
quote = "1"
proc-macro2 = "1"
proc-macro-error = "1"
serde = { version = "1", features = ["derive"] }
serde_json = "1"
lazy_static = "1"
thiserror = "1"
