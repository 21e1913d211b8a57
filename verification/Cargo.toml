[package]
name = "derive-where"
version = "0.1.0"
edition = "2021"
publish = false

[dependencies]
proc-macro2 = { version = "1", default-features = false, features = ["proc-macro"] }
quote = { version = "1", default-features = false }
syn = { version = "1", default-features = false, features = ["clone-impls", "derive", "extra-traits", "full", "parsing", "printing"] }
